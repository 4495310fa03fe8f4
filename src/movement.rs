//! The follow-model step of the snake and its collision checks.

use vstd::prelude::*;
use crate::board::{in_board, Layout, Position};
use crate::direction::Direction;

verus! {

/// The body after one step of the follow model: the new head in front, the
/// old body without its last cell behind it.
pub open spec fn follow(body: Seq<Position>, head: Position) -> Seq<Position> {
    seq![head] + body.drop_last()
}

/// Whether `p` is one of the cells of `body` other than its head.
pub open spec fn hits_body(body: Seq<Position>, p: Position) -> bool {
    exists|i: int| 1 <= i < body.len() && body[i] == p
}

/// The column the head reaches in one step, before any range check.
pub open spec fn next_x(body: Seq<Position>, d: Direction) -> int {
    body[0].0 + d.dx_spec()
}

/// The row the head reaches in one step, before any range check.
pub open spec fn next_y(body: Seq<Position>, d: Direction) -> int {
    body[0].1 + d.dy_spec()
}

/// The head cell after one step; meaningful when the step stays on the board.
pub open spec fn next_head(body: Seq<Position>, d: Direction) -> Position {
    (next_x(body, d) as u16, next_y(body, d) as u16)
}

/// Whether one step keeps the snake on the board and off its own body.
pub open spec fn step_ok(body: Seq<Position>, d: Direction, width: u16, height: u16, layout: Layout) -> bool {
    &&& in_board(next_x(body, d), next_y(body, d), width, height, layout)
    &&& !hits_body(follow(body, next_head(body, d)), next_head(body, d))
}

/// Whether the snake's head stands on the fruit's cell.
pub fn is_fruit_was_eaten(snake: &Vec<Position>, fruit: Position) -> (r: bool)
    requires
        snake@.len() >= 1,
    ensures
        r == (snake@[0] == fruit),
{
    let (x, y) = snake[0];
    fruit.0 == x && fruit.1 == y
}

/// Whether (head_x, head_y) is clear of every cell of the snake but its head.
pub fn is_snake_not_in_self(snake: &Vec<Position>, head_x: u16, head_y: u16) -> (r: bool)
    ensures
        r == !hits_body(snake@, (head_x, head_y)),
{
    let mut i: usize = 1;
    while i < snake.len()
        invariant
            1 <= i <= snake@.len() || snake@.len() == 0,
            forall|j: int| 1 <= j < i && j < snake@.len() ==> snake@[j] != (head_x, head_y),
        decreases snake@.len() - i,
    {
        let (x, y) = snake[i];
        if head_x == x && head_y == y {
            assert(snake@[i as int] == (head_x, head_y));
            return false;
        }
        i = i + 1;
    }
    true
}

/// Advances the snake one step in `direction`.
///
/// Every segment but the head takes the cell its predecessor held; the head
/// moves by the direction's displacement. The step fails when the new head
/// leaves the playable board or lands on the shifted body; the snake is then
/// left as it was. Returns the resulting body and whether the snake lives.
pub fn move_snake(
    snake: &mut Vec<Position>,
    direction: &Direction,
    width: u16,
    height: u16,
    layout: Layout,
) -> (r: (Vec<Position>, bool))
    requires
        old(snake)@.len() >= 1,
    ensures
        r.1 == step_ok(old(snake)@, *direction, width, height, layout),
        r.0@ == final(snake)@,
        r.1 ==> final(snake)@ == follow(old(snake)@, next_head(old(snake)@, *direction)),
        r.1 ==> final(snake)@.len() == old(snake)@.len(),
        r.1 ==> final(snake)@[0].0 == next_x(old(snake)@, *direction),
        r.1 ==> final(snake)@[0].1 == next_y(old(snake)@, *direction),
        r.1 ==> forall|i: int|
            1 <= i < old(snake)@.len() ==> #[trigger] final(snake)@[i] == old(snake)@[i - 1],
        !r.1 ==> final(snake)@ == old(snake)@,
{
    let ghost before = snake@;
    let (head_x, head_y) = snake[0];
    let new_x: i32 = head_x as i32 + direction.dx() as i32;
    let new_y: i32 = head_y as i32 + direction.dy() as i32;
    let top = layout.top() as i32;
    if !(0 <= new_x && new_x < width as i32 && top <= new_y && new_y < height as i32) {
        return (copy_body(snake), false);
    }
    let head: Position = (new_x as u16, new_y as u16);
    assert(head == next_head(before, *direction));
    let saved = copy_body(snake);
    let mut idx: usize = snake.len() - 1;
    while idx > 0
        invariant
            snake@.len() == before.len(),
            idx < before.len(),
            forall|j: int| 0 <= j <= idx ==> #[trigger] snake@[j] == before[j],
            forall|j: int| idx < j < before.len() ==> #[trigger] snake@[j] == before[j - 1],
        decreases idx,
    {
        let prev = snake[idx - 1];
        snake.set(idx, prev);
        idx = idx - 1;
    }
    assert(snake@ =~= follow(before, head).update(0, before[0]));
    if is_snake_not_in_self(snake, head.0, head.1) {
        snake.set(0, head);
        assert(snake@ =~= follow(before, head));
        (copy_body(snake), true)
    } else {
        assert(hits_body(follow(before, head), head)) by {
            let i = choose|i: int| 1 <= i < snake@.len() && snake@[i] == head;
            assert(follow(before, head)[i] == head);
        }
        *snake = saved;
        (copy_body(snake), false)
    }
}

/// A fresh vector with the same cells.
fn copy_body(body: &Vec<Position>) -> (r: Vec<Position>)
    ensures
        r@ == body@,
{
    let mut out: Vec<Position> = Vec::with_capacity(body.len());
    let mut i: usize = 0;
    while i < body.len()
        invariant
            i <= body@.len(),
            out@ == body@.subrange(0, i as int),
        decreases body@.len() - i,
    {
        out.push(body[i]);
        i = i + 1;
    }
    assert(out@ =~= body@);
    out
}

/// A head that steps onto the cell the tail is leaving this very step does not
/// collide, since the tail has moved on by then.
pub proof fn lemma_vacated_tail_is_free(body: Seq<Position>, d: Direction, width: u16, height: u16, layout: Layout)
    requires
        body.len() >= 2,
        in_board(next_x(body, d), next_y(body, d), width, height, layout),
        next_head(body, d) == body.last(),
        forall|i: int| 0 <= i < body.len() - 1 ==> body[i] != body.last(),
    ensures
        step_ok(body, d, width, height, layout),
{
    let head = next_head(body, d);
    assert forall|i: int| 1 <= i < follow(body, head).len() implies follow(body, head)[i] != head by {
        assert(follow(body, head)[i] == body[i - 1]);
    }
}

} // verus!
