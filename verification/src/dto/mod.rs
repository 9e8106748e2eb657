//! Request and response bodies of the game and player endpoints.
pub mod game;
pub mod player;

pub use game::{CreateGameRequest, GameSettings, GameStatusResponse, JoinGameRequest};
pub use player::{LeaveGameResponse, PlayerRemovedResponse};
