//! Game request and response bodies, and the settings stored with a game.
use vstd::prelude::*;
use vstd::string::*;

verus! {

/// POST /api/games - Create game request.
#[derive(Debug, Clone)]
pub struct CreateGameRequest {
    /// Maximum number of players (2-16, default: 8)
    pub max_players: Option<u8>,
    /// Game type identifier
    pub game_type: Option<String>,
}

/// POST /api/games/:code/join - Join game request.
#[derive(Debug, Clone)]
pub struct JoinGameRequest {
    /// Player's display name (2-20 chars)
    pub nickname: String,
}

/// Game status change response.
#[derive(Debug, Clone)]
pub struct GameStatusResponse {
    pub id: i32,
    pub status: String,
    pub message: String,
}

/// Game settings stored in the game's JSON column.
#[derive(Debug, Clone)]
pub struct GameSettings {
    pub max_players: u8,
    pub game_type: String,
}

/// `max_players` defaulted to 8 and clamped into 2..=16.
pub open spec fn spec_max_players(requested: Option<u8>) -> u8 {
    let m = match requested {
        Some(m) => m,
        None => 8,
    };
    if m < 2 {
        2
    } else if m > 16 {
        16
    } else {
        m
    }
}

/// The player limit of new settings follows the request: a requested limit within
/// 2..=16 is kept as it is, one below 2 becomes 2, one above 16 becomes 16, and no
/// request gives 8.
pub proof fn lemma_max_players_follows_request(requested: Option<u8>)
    ensures
        requested is None ==> spec_max_players(requested) == 8,
        requested matches Some(m) ==> (2 <= m <= 16 ==> spec_max_players(requested) == m),
        requested matches Some(m) && m < 2 ==> spec_max_players(requested) == 2,
        requested matches Some(m) && m > 16 ==> spec_max_players(requested) == 16,
{
}

/// Asking for more players never gives fewer: the limit grows with the request.
pub proof fn lemma_max_players_monotonic(a: u8, b: u8)
    requires
        a <= b,
    ensures
        spec_max_players(Some(a)) <= spec_max_players(Some(b)),
{
}

impl Default for GameSettings {
    /// The settings of a game whose stored settings cannot be read: the documented
    /// defaults, 8 players and type `"default"`, as for a game created without settings.
    fn default() -> (r: Self)
        ensures
            r.max_players == 8,
            r.game_type@ == "default"@,
    {
        GameSettings { max_players: 8, game_type: String::from_str("default") }
    }
}

impl GameSettings {
    /// Settings of a new game: `max_players` defaults to 8 and is clamped into 2..=16;
    /// `game_type` defaults to `"default"`.
    pub fn new(max_players: Option<u8>, game_type: Option<String>) -> (r: Self)
        ensures
            r.max_players == spec_max_players(max_players),
            2 <= r.max_players <= 16,
            max_players is None ==> r.max_players == 8,
            max_players matches Some(m) ==> (2 <= m <= 16 ==> r.max_players == m),
            max_players matches Some(m) && m < 2 ==> r.max_players == 2,
            max_players matches Some(m) && m > 16 ==> r.max_players == 16,
            r.game_type@ == match game_type {
                Some(t) => t@,
                None => "default"@,
            },
    {
        let m = match max_players {
            Some(m) => m,
            None => 8,
        };
        let clamped = if m < 2 {
            2
        } else if m > 16 {
            16
        } else {
            m
        };
        let game_type = match game_type {
            Some(t) => t,
            None => String::from_str("default"),
        };
        GameSettings { max_players: clamped, game_type }
    }
}

}
