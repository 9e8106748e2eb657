//! The decisions of the game and player services.
pub mod game_service;
pub mod player_service;

pub use game_service::GameService;
pub use player_service::PlayerService;
