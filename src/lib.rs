//! A snake game on a character grid: the body and its movement, collision
//! rules, fruit placement and the per-tick game state, each with a verified
//! contract. Drawing and reading the terminal are left to the caller.

pub mod direction;
pub mod board;
pub mod movement;
pub mod fruit;
pub mod game;
pub mod render;

pub use direction::Direction;
pub use board::{Layout, Position};
pub use movement::{is_fruit_was_eaten, is_snake_not_in_self, move_snake};
pub use fruit::{generate_fruit, is_free_cell};
pub use game::{Game, InputEvent, ResizePolicy, SetupError, Status};
pub use render::{score_label_column, snake_cells, Cell};
