//! What to paint for the snake and where the score label goes.

use vstd::prelude::*;
use crate::board::Position;
use crate::direction::Direction;

verus! {

/// The glyph of every segment but the head.
pub const BODY_GLYPH: char = '#';

/// The glyph of the fruit.
pub const FRUIT_GLYPH: char = 'o';

/// The glyph the score header's rule is drawn with.
pub const RULE_GLYPH: char = '=';

/// One glyph to paint at a grid cell.
#[derive(Clone, Copy, Debug, PartialEq, Eq, Structural)]
pub struct Cell {
    pub x: u16,
    pub y: u16,
    pub glyph: char,
}

/// The glyphs that draw a snake: the head shows the direction, the rest the body glyph.
pub fn snake_cells(snake: &Vec<Position>, direction: &Direction) -> (r: Vec<Cell>)
    ensures
        r@.len() == snake@.len(),
        forall|i: int|
            0 <= i < snake@.len() ==> (#[trigger] r@[i]).x == snake@[i].0 && r@[i].y == snake@[i].1
                && r@[i].glyph == (if i == 0 {
                direction.glyph_spec()
            } else {
                BODY_GLYPH
            }),
{
    let mut out: Vec<Cell> = Vec::with_capacity(snake.len());
    let mut i: usize = 0;
    while i < snake.len()
        invariant
            i <= snake@.len(),
            out@.len() == i,
            forall|j: int|
                0 <= j < i ==> (#[trigger] out@[j]).x == snake@[j].0 && out@[j].y == snake@[j].1
                    && out@[j].glyph == (if j == 0 {
                    direction.glyph_spec()
                } else {
                    BODY_GLYPH
                }),
        decreases snake@.len() - i,
    {
        let (x, y) = snake[i];
        let glyph = if i == 0 {
            direction.glyph()
        } else {
            BODY_GLYPH
        };
        out.push(Cell { x, y, glyph });
        i = i + 1;
    }
    out
}

/// The column at which a label of `label_len` characters starts when it is
/// centred on a row `width` cells wide; 0 when the label is the wider.
pub fn score_label_column(width: u16, label_len: usize) -> (r: u16)
    ensures
        r as int == if width / 2 >= label_len / 2 {
            width / 2 - label_len / 2
        } else {
            0
        },
{
    let half = width / 2;
    let label_half = label_len / 2;
    if label_half <= half as usize {
        half - label_half as u16
    } else {
        0
    }
}

} // verus!
