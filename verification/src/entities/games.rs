//! A game session of the party-game service, as the game rules read it.
use vstd::prelude::*;
use crate::dto::GameSettings;

verus! {

/// A stored game: its join code, host, status text and settings.
#[derive(Debug, Clone)]
pub struct GameRecord {
    pub id: i32,
    pub code: String,
    pub host_id: i32,
    /// Status text as stored: `"lobby"`, `"playing"` or `"finished"`.
    pub status: String,
    /// The stored settings, or `None` when absent or unreadable.
    pub settings: Option<GameSettings>,
}

/// A stored player of a game.
#[derive(Debug, Clone)]
pub struct PlayerRecord {
    pub id: i32,
    pub game_id: i32,
    pub user_id: i32,
    pub nickname: String,
    pub color: String,
}

impl PlayerRecord {
    /// A field-for-field copy of the record.
    pub fn duplicate(&self) -> (r: PlayerRecord)
        ensures
            r == *self,
    {
        PlayerRecord {
            id: self.id,
            game_id: self.game_id,
            user_id: self.user_id,
            nickname: self.nickname.clone(),
            color: self.color.clone(),
        }
    }
}

}
