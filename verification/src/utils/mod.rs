//! Join codes and player colours.
pub mod color;
pub mod game_code;

pub use color::{assign_player_color, get_next_available_color};
pub use game_code::{generate_game_code, is_valid_game_code, normalize_game_code};
