//! Records the game and account rules read.
pub mod game;
pub mod game_status;
pub mod games;
pub mod user;

pub use game_status::GameStatus;
