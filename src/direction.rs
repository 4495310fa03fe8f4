//! Headings of the snake, their one-cell displacements and head glyphs.

use vstd::prelude::*;

verus! {

/// One of the four headings of the snake.
#[derive(Clone, Copy, Debug, PartialEq, Eq, Structural)]
pub enum Direction {
    Up,
    Down,
    Left,
    Right,
}

impl Direction {
    /// Column displacement of one step.
    pub open spec fn dx_spec(self) -> int {
        match self {
            Direction::Left => -1,
            Direction::Right => 1,
            _ => 0,
        }
    }

    /// Row displacement of one step (rows grow downwards).
    pub open spec fn dy_spec(self) -> int {
        match self {
            Direction::Up => -1,
            Direction::Down => 1,
            _ => 0,
        }
    }

    /// The glyph the head is drawn with.
    pub open spec fn glyph_spec(self) -> char {
        match self {
            Direction::Up => '∧',
            Direction::Down => '˅',
            Direction::Left => '<',
            Direction::Right => '>',
        }
    }

    /// The heading that a key selects, if any: `w`, `a`, `s`, `d`.
    pub open spec fn for_key_spec(c: char) -> Option<Direction> {
        if c == 'w' {
            Some(Direction::Up)
        } else if c == 'a' {
            Some(Direction::Left)
        } else if c == 's' {
            Some(Direction::Down)
        } else if c == 'd' {
            Some(Direction::Right)
        } else {
            None
        }
    }

    pub fn dx(&self) -> (r: i8)
        ensures
            r as int == self.dx_spec(),
    {
        match self {
            Direction::Left => -1,
            Direction::Right => 1,
            _ => 0,
        }
    }

    pub fn dy(&self) -> (r: i8)
        ensures
            r as int == self.dy_spec(),
    {
        match self {
            Direction::Up => -1,
            Direction::Down => 1,
            _ => 0,
        }
    }

    pub fn glyph(&self) -> (r: char)
        ensures
            r == self.glyph_spec(),
    {
        match self {
            Direction::Up => '∧',
            Direction::Down => '˅',
            Direction::Left => '<',
            Direction::Right => '>',
        }
    }

    pub fn for_key(c: char) -> (r: Option<Direction>)
        ensures
            r == Self::for_key_spec(c),
    {
        match c {
            'w' => Some(Direction::Up),
            'a' => Some(Direction::Left),
            's' => Some(Direction::Down),
            'd' => Some(Direction::Right),
            _ => None,
        }
    }
}

/// Exactly one of the two displacements is nonzero, and it is one step.
pub proof fn lemma_unit_displacement(d: Direction)
    ensures
        (d.dx_spec() == 0) != (d.dy_spec() == 0),
        -1 <= d.dx_spec() <= 1,
        -1 <= d.dy_spec() <= 1,
{
}

} // verus!
