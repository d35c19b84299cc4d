//! The rules of a grid snake game: field geometry, the snake's body, food,
//! the menu buttons and the session that ties them together.
//!
//! Everything here works on whole numbers. Cells are counted from the top-left
//! cell of the field, pixels from the top-left corner of the viewport, and
//! time in whatever unit the caller's clock ticks in.

pub mod apples;
pub mod button;
pub mod direction;
pub mod game;
pub mod grid;
pub mod scene;
pub mod session;
pub mod snake;

pub use apples::Apples;
pub use button::Button;
pub use direction::Direction;
pub use grid::{Cell, Grid, Square, Tint};
pub use game::{Game, Input, Outcome, Phase};
pub use scene::Scene;
pub use session::Session;
pub use snake::Snake;
