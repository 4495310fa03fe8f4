//! The game state: setup, input events and one tick of play.

use vstd::prelude::*;
use crate::board::{in_board, occupies, Layout, Position};
use crate::direction::Direction;
use crate::fruit::{free_cell, generate_fruit, has_free_cell};
use crate::movement::{follow, is_fruit_was_eaten, move_snake, next_head, step_ok};

verus! {

/// Number of segments the snake starts with.
pub const INITIAL_LENGTH: u16 = 6;

/// What the game does when the terminal changes size.
#[derive(Clone, Copy, Debug, PartialEq, Eq, Structural)]
pub enum ResizePolicy {
    /// Any resize ends the game.
    EndGame,
    /// The new size bounds every later move and fruit placement.
    Adopt,
}

/// Whether the game still runs.
#[derive(Clone, Copy, Debug, PartialEq, Eq, Structural)]
pub enum Status {
    Running,
    GameOver,
}

/// One event read from the terminal.
#[derive(Clone, Copy, Debug, PartialEq, Eq, Structural)]
pub enum InputEvent {
    /// A character key was pressed.
    Key(char),
    /// The terminal now has this width and height.
    Resize(u16, u16),
    /// Anything else (mouse, focus, paste).
    Other,
}

/// Why a game cannot start on a board.
#[derive(Clone, Copy, Debug, PartialEq, Eq, Structural)]
pub enum SetupError {
    /// The starting snake does not fit on the playable board. A board that
    /// fits it always has a free cell for the first fruit.
    BoardTooSmall,
}

/// The whole state of a game.
pub struct Game {
    /// Segments, head first.
    pub snake: Vec<Position>,
    pub direction: Direction,
    /// Absent only when the board has no free cell left.
    pub fruit: Option<Position>,
    pub score: usize,
    pub width: u16,
    pub height: u16,
    pub layout: Layout,
    pub resize: ResizePolicy,
    pub status: Status,
}

/// The direction after one event: a movement key overwrites it, anything else keeps it.
pub open spec fn next_direction(d: Direction, e: InputEvent) -> Direction {
    match e {
        InputEvent::Key(c) => match Direction::for_key_spec(c) {
            Some(n) => n,
            None => d,
        },
        _ => d,
    }
}

/// Whether an event changes the heading.
pub open spec fn is_direction_key(e: InputEvent) -> bool {
    match e {
        InputEvent::Key(c) => Direction::for_key_spec(c) is Some,
        _ => false,
    }
}

/// The game after one event. A finished game ignores events.
pub open spec fn after_event(g: Game, e: InputEvent) -> Game {
    if g.status == Status::GameOver {
        g
    } else {
        match e {
            InputEvent::Key(_) => Game { direction: next_direction(g.direction, e), ..g },
            InputEvent::Resize(w, h) => match g.resize {
                ResizePolicy::EndGame => Game { status: Status::GameOver, ..g },
                ResizePolicy::Adopt => Game { width: w, height: h, ..g },
            },
            InputEvent::Other => g,
        }
    }
}

/// The game after a batch of events, applied in order.
pub open spec fn after_events(g: Game, es: Seq<InputEvent>) -> Game
    decreases es.len(),
{
    if es.len() == 0 {
        g
    } else {
        after_event(after_events(g, es.drop_last()), es.last())
    }
}

/// The starting snake: a horizontal run of `INITIAL_LENGTH` cells, head at
/// (width / 3, height / 2), the body trailing to the left.
pub open spec fn initial_snake(width: u16, height: u16) -> Seq<Position> {
    Seq::new(INITIAL_LENGTH as nat, |k: int| ((width / 3 - k) as u16, height / 2))
}

/// Whether the starting snake lies on the playable board.
pub open spec fn fits_initial(width: u16, height: u16, layout: Layout) -> bool {
    &&& width / 3 >= INITIAL_LENGTH - 1
    &&& in_board(0, (height / 2) as int, width, height, layout)
}

/// The snake after eating: its tail cell doubled, so that the body grows by one
/// cell when it next shifts.
pub open spec fn grown(body: Seq<Position>) -> Seq<Position> {
    body.push(body.last())
}

impl Game {
    /// A game in a consistent state: the snake has a head, the score stays
    /// below the snake's length (each point added one segment), and the fruit
    /// lies off the snake.
    pub open spec fn wf(&self) -> bool {
        &&& self.snake@.len() >= 1
        &&& self.score < self.snake@.len()
        &&& self.fruit matches Some(p) ==> !occupies(self.snake@, p)
    }

    /// Starts a game on a board of the given size: the snake heads right from
    /// the left third of the middle row, and the first fruit is placed.
    pub fn new(width: u16, height: u16, layout: Layout, resize: ResizePolicy) -> (r: Result<Game, SetupError>)
        ensures
            !fits_initial(width, height, layout) ==> r == Err::<Game, SetupError>(SetupError::BoardTooSmall),
            r is Ok <==> fits_initial(width, height, layout),
            r matches Ok(g) ==> {
                &&& g.wf()
                &&& g.snake@ == initial_snake(width, height)
                &&& g.direction == Direction::Right
                &&& g.fruit matches Some(p) && free_cell(g.snake@, p, width, height, layout)
                &&& g.score == 0
                &&& g.width == width && g.height == height
                &&& g.layout == layout && g.resize == resize
                &&& g.status == Status::Running
            },
    {
        let start_x = width / 3;
        let start_y = height / 2;
        if !(start_x >= INITIAL_LENGTH - 1 && layout.top() <= start_y && start_y < height) {
            return Err(SetupError::BoardTooSmall);
        }
        let mut snake: Vec<Position> = Vec::new();
        let mut k: u16 = 0;
        while k < INITIAL_LENGTH
            invariant
                k <= INITIAL_LENGTH,
                start_x >= INITIAL_LENGTH - 1,
                start_x == width / 3,
                start_y == height / 2,
                snake@ == initial_snake(width, height).subrange(0, k as int),
            decreases INITIAL_LENGTH - k,
        {
            snake.push((start_x - k, start_y));
            k = k + 1;
        }
        assert(snake@ =~= initial_snake(width, height));
        assert(free_cell(snake@, ((start_x + 1) as u16, start_y), width, height, layout));
        match generate_fruit(&snake, width, height, layout) {
            // Not reached: the cell right of the head is free.
            None => Err(SetupError::BoardTooSmall),
            Some(p) => Ok(
                Game {
                    snake,
                    direction: Direction::Right,
                    fruit: Some(p),
                    score: 0,
                    width,
                    height,
                    layout,
                    resize,
                    status: Status::Running,
                },
            ),
        }
    }

    /// Applies one input event: a movement key overwrites the direction (a
    /// reversal included), a resize ends the game or adopts the new size as the
    /// policy says, anything else is ignored.
    pub fn handle_event(&mut self, event: InputEvent)
        ensures
            *final(self) == after_event(*old(self), event),
            old(self).wf() ==> final(self).wf(),
    {
        if self.status == Status::GameOver {
            return;
        }
        match event {
            InputEvent::Key(c) => {
                if let Some(d) = Direction::for_key(c) {
                    self.direction = d;
                }
            },
            InputEvent::Resize(w, h) => {
                match self.resize {
                    ResizePolicy::EndGame => {
                        self.status = Status::GameOver;
                    },
                    ResizePolicy::Adopt => {
                        self.width = w;
                        self.height = h;
                    },
                }
            },
            InputEvent::Other => {},
        }
    }

    /// Applies a batch of pending events in the order they arrived, so the
    /// latest movement key wins.
    pub fn handle_events(&mut self, events: &Vec<InputEvent>)
        ensures
            *final(self) == after_events(*old(self), events@),
            old(self).wf() ==> final(self).wf(),
    {
        let ghost start = *self;
        let mut i: usize = 0;
        while i < events.len()
            invariant
                i <= events@.len(),
                *self == after_events(start, events@.subrange(0, i as int)),
                start.wf() ==> self.wf(),
            decreases events@.len() - i,
        {
            proof {
                let next = events@.subrange(0, i + 1);
                assert(next.drop_last() =~= events@.subrange(0, i as int));
            }
            self.handle_event(events[i]);
            i = i + 1;
        }
        assert(events@.subrange(0, events@.len() as int) =~= events@);
    }
    /// Plays one tick: the snake steps in the current direction. A step off the
    /// board or into the body ends the game and leaves the snake as it was. A
    /// step onto the fruit scores a point, grows the snake by one segment and
    /// places a new fruit off the grown snake. A finished game stays as it is.
    /// Returns whether the snake is alive.
    pub fn tick(&mut self) -> (alive: bool)
        requires
            old(self).wf(),
        ensures
            final(self).wf(),
            final(self).direction == old(self).direction,
            final(self).width == old(self).width,
            final(self).height == old(self).height,
            final(self).layout == old(self).layout,
            final(self).resize == old(self).resize,
            old(self).status == Status::GameOver ==> !alive && *final(self) == *old(self),
            old(self).status == Status::Running ==> alive == step_ok(
                old(self).snake@,
                old(self).direction,
                old(self).width,
                old(self).height,
                old(self).layout,
            ),
            old(self).status == Status::Running && !alive ==> {
                &&& final(self).status == Status::GameOver
                &&& final(self).snake@ == old(self).snake@
                &&& final(self).fruit == old(self).fruit
                &&& final(self).score == old(self).score
            },
            old(self).status == Status::Running && alive ==> {
                let moved = follow(old(self).snake@, next_head(old(self).snake@, old(self).direction));
                &&& final(self).status == Status::Running
                &&& old(self).fruit == Some(moved[0]) ==> {
                    &&& final(self).snake@ == grown(moved)
                    &&& final(self).snake@.len() == old(self).snake@.len() + 1
                    &&& final(self).score == old(self).score + 1
                    &&& final(self).fruit is None <==> !has_free_cell(
                        final(self).snake@,
                        final(self).width,
                        final(self).height,
                        final(self).layout,
                    )
                    &&& final(self).fruit matches Some(p) ==> free_cell(
                        final(self).snake@,
                        p,
                        final(self).width,
                        final(self).height,
                        final(self).layout,
                    )
                }
                &&& old(self).fruit != Some(moved[0]) ==> {
                    &&& final(self).snake@ == moved
                    &&& final(self).score == old(self).score
                    &&& final(self).fruit == old(self).fruit
                }
            },
    {
        if self.status == Status::GameOver {
            return false;
        }
        let direction = self.direction;
        let ghost before = self.snake@;
        let (_, alive) = move_snake(&mut self.snake, &direction, self.width, self.height, self.layout);
        if !alive {
            self.status = Status::GameOver;
            return false;
        }
        if let Some(f) = self.fruit {
            if is_fruit_was_eaten(&self.snake, f) {
                let tail = self.snake[self.snake.len() - 1];
                self.snake.push(tail);
                self.score = self.score + 1;
                self.fruit = generate_fruit(&self.snake, self.width, self.height, self.layout);
            } else {
                assert(!occupies(self.snake@, f)) by {
                    if occupies(self.snake@, f) {
                        let i = choose|i: int| 0 <= i < self.snake@.len() && self.snake@[i] == f;
                        assert(i >= 1);
                        assert(before[i - 1] == f);
                    }
                }
            }
        }
        true
    }
}

/// Events that select no direction, however many, leave the direction as it
/// was; in particular a poll that finds nothing pending changes nothing.
pub proof fn lemma_idle_polls_keep_direction(g: Game, es: Seq<InputEvent>)
    requires
        forall|i: int| 0 <= i < es.len() ==> !is_direction_key(#[trigger] es[i]),
    ensures
        after_events(g, es).direction == g.direction,
        after_events(g, Seq::empty()) == g,
    decreases es.len(),
{
    if es.len() > 0 {
        let rest = es.drop_last();
        assert forall|i: int| 0 <= i < rest.len() implies !is_direction_key(#[trigger] rest[i]) by {
            assert(rest[i] == es[i]);
        }
        lemma_idle_polls_keep_direction(g, rest);
        assert(!is_direction_key(es[es.len() - 1]));
    }
}

} // verus!
