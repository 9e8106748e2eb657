//! A game of the catalogue (a creator's game with versions), as its rules read it.
use vstd::prelude::*;

verus! {

/// A stored catalogue game.
#[derive(Debug, Clone)]
pub struct CatalogGame {
    pub id: u128,
    pub owner_id: u128,
    pub title: String,
    pub slug: String,
    pub description: Option<String>,
    pub thumbnail: Option<String>,
    pub technology: String,
    /// `"draft"`, `"published"` or `"archived"`.
    pub status: String,
    /// `"private"`, `"unlisted"` or `"public"`.
    pub visibility: String,
    pub min_players: i32,
    pub max_players: i32,
    pub published_version_id: Option<u128>,
    pub game_screen_code: Option<String>,
    pub controller_screen_code: Option<String>,
    pub forked_from_id: Option<u128>,
}

}
