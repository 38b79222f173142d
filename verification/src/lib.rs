//! A turn-based grid battle engine: a rectangular board, a roster of uniquely
//! identified units, and a movement engine that validates each requested step
//! against the board bounds and the other units' positions before committing it.

pub mod game;
pub mod model;

pub use crate::game::Game;
pub use crate::model::Board;
pub use crate::model::Direction;
pub use crate::model::MoveError;
pub use crate::model::Position;
pub use crate::model::Tank;
pub use crate::model::Team;
