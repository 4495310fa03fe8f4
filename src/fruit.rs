//! Placing the fruit on a cell that the snake leaves free.

use vstd::prelude::*;
use crate::board::{in_board, occupies, Layout, Position};

verus! {

/// Random draws made before the board is searched cell by cell.
pub const MAX_FRUIT_DRAWS: u32 = 1000;

/// Whether `p` is a playable cell that no segment of `body` occupies.
pub open spec fn free_cell(body: Seq<Position>, p: Position, width: u16, height: u16, layout: Layout) -> bool {
    &&& in_board(p.0 as int, p.1 as int, width, height, layout)
    &&& !occupies(body, p)
}

/// Whether the board has a playable cell that `body` leaves free.
pub open spec fn has_free_cell(body: Seq<Position>, width: u16, height: u16, layout: Layout) -> bool {
    exists|p: Position| #[trigger] free_cell(body, p, width, height, layout)
}

/// Relies on rand::random_range: a value of `lo..hi` drawn from the thread-local
/// generator. It panics on an empty range, which `requires` rules out.
#[verifier::external_body]
fn random_in(lo: u16, hi: u16) -> (r: u16)
    requires
        lo < hi,
    ensures
        lo <= r < hi,
{
    rand::random_range(lo..hi)
}

/// Whether `cell` can take the fruit: playable and off the snake.
pub fn is_free_cell(snake: &Vec<Position>, cell: Position, width: u16, height: u16, layout: Layout) -> (r: bool)
    ensures
        r == free_cell(snake@, cell, width, height, layout),
{
    if !(cell.0 < width && layout.top() <= cell.1 && cell.1 < height) {
        return false;
    }
    let mut i: usize = 0;
    while i < snake.len()
        invariant
            i <= snake@.len(),
            forall|j: int| 0 <= j < i ==> snake@[j] != cell,
        decreases snake@.len() - i,
    {
        let (x, y) = snake[i];
        if x == cell.0 && y == cell.1 {
            assert(snake@[i as int] == cell);
            return false;
        }
        i = i + 1;
    }
    true
}

/// The first free cell in row-major order, if the board has one.
pub fn first_free_cell(snake: &Vec<Position>, width: u16, height: u16, layout: Layout) -> (r: Option<Position>)
    ensures
        r is None <==> !has_free_cell(snake@, width, height, layout),
        r matches Some(p) ==> free_cell(snake@, p, width, height, layout),
{
    let mut y: u16 = layout.top();
    while y < height
        invariant
            layout.top_spec() <= y,
            forall|p: Position| p.1 < y ==> !#[trigger] free_cell(snake@, p, width, height, layout),
        decreases height - y,
    {
        let mut x: u16 = 0;
        while x < width
            invariant
                y < height,
                forall|p: Position| p.1 < y ==> !#[trigger] free_cell(snake@, p, width, height, layout),
                forall|p: Position| p.1 == y && p.0 < x ==> !#[trigger] free_cell(snake@, p, width, height, layout),
            decreases width - x,
        {
            if is_free_cell(snake, (x, y), width, height, layout) {
                return Some((x, y));
            }
            x = x + 1;
        }
        y = y + 1;
    }
    proof {
        assert forall|p: Position| !#[trigger] free_cell(snake@, p, width, height, layout) by {
            if p.1 >= y {
                assert(!in_board(p.0 as int, p.1 as int, width, height, layout));
            }
        }
    }
    None
}

/// Picks a cell for the fruit: uniformly random playable cells are drawn until
/// one is off the snake; after `MAX_FRUIT_DRAWS` misses the board is searched in
/// row-major order instead. Returns `None` exactly when no playable cell is free.
pub fn generate_fruit(snake: &Vec<Position>, width: u16, height: u16, layout: Layout) -> (r: Option<Position>)
    ensures
        r is None <==> !has_free_cell(snake@, width, height, layout),
        r matches Some(p) ==> free_cell(snake@, p, width, height, layout),
{
    let top = layout.top();
    if width == 0 || height <= top {
        assert forall|p: Position| !#[trigger] free_cell(snake@, p, width, height, layout) by {}
        return None;
    }
    let mut draws: u32 = 0;
    while draws < MAX_FRUIT_DRAWS
        invariant
            width > 0,
            top as int == layout.top_spec(),
            top < height,
        decreases MAX_FRUIT_DRAWS - draws,
    {
        let cell: Position = (random_in(0, width), random_in(top, height));
        if is_free_cell(snake, cell, width, height, layout) {
            return Some(cell);
        }
        draws = draws + 1;
    }
    first_free_cell(snake, width, height, layout)
}

} // verus!
