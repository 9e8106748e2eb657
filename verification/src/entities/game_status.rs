//! Game lifecycle status.
use vstd::prelude::*;
use crate::text::{all_ascii, spec_ascii_lower, to_lowercase, unicode_lowercase};

verus! {

/// Game lifecycle status.
#[derive(Debug, Clone, Copy, PartialEq, Eq, Structural)]
pub enum GameStatus {
    /// Game is in lobby, players can join
    Lobby,
    /// Game is in progress
    Playing,
    /// Game has ended
    Finished,
}

/// Database text of a status.
pub open spec fn spec_status_text(s: GameStatus) -> Seq<char> {
    match s {
        GameStatus::Lobby => "lobby"@,
        GameStatus::Playing => "playing"@,
        GameStatus::Finished => "finished"@,
    }
}

/// Status named by an already lower-cased text.
pub open spec fn spec_status_of(lower: Seq<char>) -> Option<GameStatus> {
    if lower == "lobby"@ {
        Some(GameStatus::Lobby)
    } else if lower == "playing"@ {
        Some(GameStatus::Playing)
    } else if lower == "finished"@ {
        Some(GameStatus::Finished)
    } else {
        None
    }
}

impl Default for GameStatus {
    /// A new game starts in the lobby.
    fn default() -> (r: Self)
        ensures
            r == GameStatus::Lobby,
    {
        GameStatus::Lobby
    }
}

impl GameStatus {
    /// Convert from database string representation (case-insensitive).
    pub fn from_str(s: &str) -> (r: Option<Self>)
        ensures
            r == spec_status_of(unicode_lowercase(s@)),
            all_ascii(s@) ==> r == spec_status_of(s@.map_values(|c: char| spec_ascii_lower(c))),
            forall|st: GameStatus| s@ == #[trigger] spec_status_text(st) ==> r == Some(st),
    {
        let lower = to_lowercase(s);
        proof {
            reveal_strlit("lobby");
            reveal_strlit("playing");
            reveal_strlit("finished");
            assert forall|st: GameStatus| s@ == #[trigger] spec_status_text(st) implies lower@
                == spec_status_text(st) by {
                assert(all_ascii(s@));
                assert(lower@ =~= s@.map_values(|c: char| spec_ascii_lower(c)));
            }
        }
        if lower == String::from_str("lobby") {
            Some(Self::Lobby)
        } else if lower == String::from_str("playing") {
            Some(Self::Playing)
        } else if lower == String::from_str("finished") {
            Some(Self::Finished)
        } else {
            None
        }
    }

    /// Convert to database string representation.
    pub fn as_str(&self) -> (r: &'static str)
        ensures
            r@ == spec_status_text(*self),
    {
        match self {
            Self::Lobby => "lobby",
            Self::Playing => "playing",
            Self::Finished => "finished",
        }
    }

    /// Check if players can join: only in the lobby.
    pub fn can_join(&self) -> (r: bool)
        ensures
            r == (*self == GameStatus::Lobby),
    {
        matches!(self, Self::Lobby)
    }

    /// Check if the game can be started: only from the lobby.
    pub fn can_start(&self) -> (r: bool)
        ensures
            r == (*self == GameStatus::Lobby),
    {
        matches!(self, Self::Lobby)
    }

    /// Check if the game is active: in the lobby or playing.
    pub fn is_active(&self) -> (r: bool)
        ensures
            r == (*self != GameStatus::Finished),
    {
        matches!(self, Self::Lobby | Self::Playing)
    }
}

/// Distinct statuses have distinct texts, so a status is recovered from its text.
pub proof fn lemma_status_text_injective(a: GameStatus, b: GameStatus)
    ensures
        spec_status_text(a) == spec_status_text(b) ==> a == b,
        spec_status_of(spec_status_text(a)) == Some(a),
{
    reveal_strlit("lobby");
    reveal_strlit("playing");
    reveal_strlit("finished");
    assert("lobby"@.len() == 5);
    assert("playing"@.len() == 7);
    assert("finished"@.len() == 8);
}

}
