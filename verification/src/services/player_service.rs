//! Joining, listing, kicking and leaving: the decisions of the player service.
use vstd::prelude::*;
use vstd::string::*;
use std::collections::hash_map::DefaultHasher;
use std::hash::{BuildHasher, BuildHasherDefault};
use crate::dto::{LeaveGameResponse, PlayerRemovedResponse};
use crate::entities::game_status::{GameStatus, spec_status_of};
use crate::entities::games::{GameRecord, PlayerRecord};
use crate::errors::AppError;
use crate::random::now_timestamp;
use crate::services::game_service::GameService;
use crate::text::{append_hex, append_signed_decimal, chars_of, is_alphanumeric, spec_hex,
    spec_signed_decimal, spec_trim, trim, unicode_alphanumeric, unicode_lowercase};
use crate::utils::color::{get_next_available_color, spec_next_color};

verus! {

/// Player joining, listing and removal rules.
pub struct PlayerService;

/// Letters (in Unicode's sense), digits, space, `_` and `-`.
pub open spec fn spec_nickname_char(c: char) -> bool {
    unicode_alphanumeric(c) || c == ' ' || c == '_' || c == '-'
}

/// Why a nickname is refused, judged on its trimmed text: fewer than 2 or more than 20
/// characters, or a character other than letters, digits, space, `_` and `-`.
pub open spec fn spec_nickname_problem(nickname: Seq<char>) -> Option<Seq<char>> {
    let t = spec_trim(nickname);
    if t.len() < 2 {
        Some("Nickname must be at least 2 characters"@)
    } else if t.len() > 20 {
        Some("Nickname must be at most 20 characters"@)
    } else if !(forall|i: int| 0 <= i < t.len() ==> spec_nickname_char(#[trigger] t[i])) {
        Some("Nickname can only contain letters, numbers, spaces, underscores, and hyphens"@)
    } else {
        None
    }
}

/// A nickname is accepted exactly when its trimmed text has 2 to 20 characters, each a
/// letter, digit, space, `_` or `-`; it is refused as too short only below 2 characters
/// and as too long only above 20.
pub proof fn lemma_nickname_rules(nickname: Seq<char>)
    ensures
        spec_nickname_problem(nickname) is None <==> (2 <= spec_trim(nickname).len() <= 20 && forall|i: int|
            0 <= i < spec_trim(nickname).len() ==> spec_nickname_char(#[trigger] spec_trim(nickname)[i])),
        spec_nickname_problem(nickname) == Some("Nickname must be at least 2 characters"@) <==> spec_trim(
            nickname,
        ).len() < 2,
        spec_nickname_problem(nickname) == Some("Nickname must be at most 20 characters"@) <==> spec_trim(
            nickname,
        ).len() > 20,
{
    reveal_strlit("Nickname must be at least 2 characters");
    reveal_strlit("Nickname must be at most 20 characters");
    reveal_strlit("Nickname can only contain letters, numbers, spaces, underscores, and hyphens");
    assert("Nickname must be at least 2 characters"@[20] != "Nickname must be at most 20 characters"@[20]);
}

/// The status a stored status text counts as when joining: unreadable text counts as finished.
pub open spec fn join_status(text: Seq<char>) -> GameStatus {
    match spec_status_of(unicode_lowercase(text)) {
        Some(s) => s,
        None => GameStatus::Finished,
    }
}

/// Colours of the given players, in order.
pub open spec fn colors_of(players: Seq<PlayerRecord>) -> Seq<String> {
    players.map_values(|p: PlayerRecord| p.color)
}

/// Room in a game: its stored `max_players`, or the default 8 when the settings are
/// absent or unreadable.
pub open spec fn capacity(game: GameRecord) -> u8 {
    match game.settings {
        Some(s) => s.max_players,
        None => 8,
    }
}

/// What the next action does when a player leaves.
#[derive(Debug, Clone, Copy, PartialEq, Eq, Structural)]
pub enum LeaveAction {
    /// The host left: set the game to finished.
    EndGame,
    /// Remove the player with this id.
    RemovePlayer(i32),
}

/// A listed player and whether they host the game.
#[derive(Debug, Clone)]
pub struct ListedPlayer {
    pub player: PlayerRecord,
    pub is_host: bool,
}

/// Whether every character satisfies `spec_nickname_char`.
fn all_nickname_chars(v: &Vec<char>) -> (r: bool)
    ensures
        r == forall|i: int| 0 <= i < v@.len() ==> spec_nickname_char(#[trigger] v@[i]),
{
    let mut i: usize = 0;
    while i < v.len()
        invariant
            i <= v@.len(),
            forall|j: int| 0 <= j < i ==> spec_nickname_char(#[trigger] v@[j]),
        decreases v@.len() - i,
    {
        let c = v[i];
        if !(is_alphanumeric(c) || c == ' ' || c == '_' || c == '-') {
            return false;
        }
        i = i + 1;
    }
    true
}

/// Calls `BuildHasher::hash_one` of `BuildHasherDefault<DefaultHasher>` on
/// `(game_id, user_id, timestamp)`: the standard hasher fed with the tuple, finished.
/// Claimed: nothing; std does not specify the hash algorithm.
#[verifier::external_body]
fn hash_token_parts(game_id: i32, user_id: i32, timestamp: i64) -> (r: u64) {
    BuildHasherDefault::<DefaultHasher>::default().hash_one((game_id, user_id, timestamp))
}

impl PlayerService {
    /// Validate nickname format (on the trimmed text).
    pub fn validate_nickname(nickname: &str) -> (r: Result<(), AppError>)
        ensures
            r is Ok <==> spec_nickname_problem(nickname@) is None,
            2 <= spec_trim(nickname@).len() <= 20 && (forall|i: int|
                0 <= i < spec_trim(nickname@).len() ==> spec_nickname_char(#[trigger] spec_trim(nickname@)[i]))
                ==> r is Ok,
            r matches Err(AppError::InvalidNickname(m)) && m@ == "Nickname must be at least 2 characters"@
                ==> spec_trim(nickname@).len() < 2,
            r matches Err(AppError::InvalidNickname(m)) && m@ == "Nickname must be at most 20 characters"@
                ==> spec_trim(nickname@).len() > 20,
            r matches Err(e) ==> (e matches AppError::InvalidNickname(m) && spec_nickname_problem(nickname@)
                == Some(m@)),
    {
        proof {
            lemma_nickname_rules(nickname@);
        }
        let trimmed = trim(nickname);
        let n = trimmed.unicode_len();
        if n < 2 {
            return Err(AppError::InvalidNickname(String::from_str("Nickname must be at least 2 characters")));
        }
        if n > 20 {
            return Err(AppError::InvalidNickname(String::from_str("Nickname must be at most 20 characters")));
        }
        let v = chars_of(trimmed);
        if !all_nickname_chars(&v) {
            return Err(
                AppError::InvalidNickname(
                    String::from_str(
                        "Nickname can only contain letters, numbers, spaces, underscores, and hyphens",
                    ),
                ),
            );
        }
        Ok(())
    }

    /// Decide a join of `game` by `user_id` under `nickname`, given whether the user is
    /// already in it, whether the nickname is taken, and its current players: the colour
    /// the new player gets, or why they may not join.
    pub fn check_join(
        game: &GameRecord,
        user_id: i32,
        nickname: &str,
        already_in_game: bool,
        nickname_taken: bool,
        current_players: &[PlayerRecord],
    ) -> (r: Result<String, AppError>)
        ensures
            join_status(game.status@) != GameStatus::Lobby ==> (r matches Err(
                AppError::InvalidGameState { current, required },
            ) && current@ == game.status@ && required@ == "lobby"@),
            join_status(game.status@) == GameStatus::Lobby && already_in_game ==> (r matches Err(
                AppError::AlreadyInGame { user_id: u, game_code },
            ) && u == user_id && game_code@ == game.code@),
            join_status(game.status@) == GameStatus::Lobby && !already_in_game && nickname_taken ==> (r matches Err(
                AppError::NicknameTaken { nickname: n, game_code },
            ) && n@ == nickname@ && game_code@ == game.code@),
            join_status(game.status@) == GameStatus::Lobby && !already_in_game && !nickname_taken
                && current_players@.len() >= capacity(*game) ==> (r matches Err(
                AppError::GameFull { game_code, max_players },
            ) && game_code@ == game.code@ && max_players == capacity(*game)),
            r is Ok <==> (join_status(game.status@) == GameStatus::Lobby && !already_in_game
                && !nickname_taken && current_players@.len() < capacity(*game)),
            r matches Ok(color) ==> color@ == spec_next_color(colors_of(current_players@)),
    {
        let status = match GameStatus::from_str(game.status.as_str()) {
            Some(s) => s,
            None => GameStatus::Finished,
        };
        if !status.can_join() {
            return Err(
                AppError::InvalidGameState {
                    current: game.status.clone(),
                    required: String::from_str("lobby"),
                },
            );
        }
        if already_in_game {
            return Err(AppError::AlreadyInGame { user_id, game_code: game.code.clone() });
        }
        if nickname_taken {
            return Err(
                AppError::NicknameTaken {
                    nickname: String::from_str(nickname),
                    game_code: game.code.clone(),
                },
            );
        }
        let max_players: u8 = match &game.settings {
            Some(s) => s.max_players,
            None => 8,
        };
        if current_players.len() >= max_players as usize {
            return Err(AppError::GameFull { game_code: game.code.clone(), max_players });
        }
        let mut taken: Vec<String> = Vec::new();
        let mut i: usize = 0;
        while i < current_players.len()
            invariant
                i <= current_players@.len(),
                taken@ == colors_of(current_players@).take(i as int),
            decreases current_players@.len() - i,
        {
            taken.push(current_players[i].color.clone());
            i = i + 1;
            assert(taken@ =~= colors_of(current_players@).take(i as int));
        }
        assert(taken@ =~= colors_of(current_players@));
        Ok(String::from_str(get_next_available_color(taken.as_slice())))
    }

    /// A player token: `pt_{game_id}_{user_id}_{hash in hex}`.
    pub fn player_token(game_id: i32, user_id: i32, hash: u64) -> (r: String)
        ensures
            r@ == "pt_"@ + spec_signed_decimal(game_id as int) + "_"@ + spec_signed_decimal(user_id as int)
                + "_"@ + spec_hex(hash as nat),
    {
        let mut r = String::from_str("pt_");
        append_signed_decimal(&mut r, game_id as i64);
        r.append("_");
        append_signed_decimal(&mut r, user_id as i64);
        r.append("_");
        append_hex(&mut r, hash);
        r
    }

    /// Generate a simple player token from the game, the user and the current time.
    /// The hex part is std's default hasher over `(game_id, user_id, timestamp)`; std does
    /// not specify that hash (nor promise it is the same across platforms or releases), so
    /// the contract leaves the hex part open rather than tie it to those inputs.
    pub fn generate_player_token(game_id: i32, user_id: i32) -> (r: String)
        ensures
            exists|h: u64|
                r@ == "pt_"@ + spec_signed_decimal(game_id as int) + "_"@ + spec_signed_decimal(
                    user_id as int,
                ) + "_"@ + spec_hex(h as nat),
    {
        let timestamp = now_timestamp();
        let hash = hash_token_parts(game_id, user_id, timestamp);
        Self::player_token(game_id, user_id, hash)
    }

    /// The players of a game in the given order, each marked as host or not.
    pub fn list_players(players: Vec<PlayerRecord>, host_id: i32) -> (r: Vec<ListedPlayer>)
        ensures
            r@.len() == players@.len(),
            forall|i: int| #![trigger r@[i]] 0 <= i < r@.len() ==> r@[i].player == players@[i] && r@[i].is_host == (
                players@[i].user_id == host_id),
    {
        let mut r: Vec<ListedPlayer> = Vec::new();
        let mut i: usize = 0;
        while i < players.len()
            invariant
                i <= players@.len(),
                r@.len() == i,
                forall|k: int| #![trigger r@[k]] 0 <= k < i ==> r@[k].player == players@[k] && r@[k].is_host == (
                    players@[k].user_id == host_id),
            decreases players@.len() - i,
        {
            let p = players[i].duplicate();
            let is_host = p.user_id == host_id;
            r.push(ListedPlayer { player: p, is_host });
            i = i + 1;
        }
        r
    }

    /// Remove a player from a game (host only): refused for anyone but the host, for a
    /// player not in this game, and for the host themself.
    pub fn check_kick(
        game: &GameRecord,
        game_id: i32,
        player_id: i32,
        host_id: i32,
        player: Option<PlayerRecord>,
    ) -> (r: Result<PlayerRemovedResponse, AppError>)
        ensures
            game.host_id != host_id ==> (r matches Err(AppError::NotHost { action }) && action@
                == "kick players"@),
            game.host_id == host_id && (player is None || player->0.game_id != game_id) ==> r
                == Err::<PlayerRemovedResponse, AppError>(
                AppError::PlayerNotFound { player_id, game_id },
            ),
            game.host_id == host_id && player is Some && player->0.game_id == game_id
                && player->0.user_id == game.host_id ==> (r matches Err(AppError::Validation(m)) && m@
                == "Cannot kick the host from the game"@),
            r is Ok <==> (game.host_id == host_id && player is Some && player->0.game_id == game_id
                && player->0.user_id != game.host_id),
            r matches Ok(resp) ==> resp.player_id == player_id && resp.message@ == "Player '"@
                + player->0.nickname@ + "' has been removed from the game"@,
    {
        if game.host_id != host_id {
            return Err(AppError::NotHost { action: String::from_str("kick players") });
        }
        let p = match player {
            Some(p) => p,
            None => return Err(AppError::PlayerNotFound { player_id, game_id }),
        };
        if p.game_id != game_id {
            return Err(AppError::PlayerNotFound { player_id, game_id });
        }
        if p.user_id == game.host_id {
            return Err(AppError::Validation(String::from_str("Cannot kick the host from the game")));
        }
        let mut message = String::from_str("Player '");
        message.append(p.nickname.as_str());
        message.append("' has been removed from the game");
        Ok(PlayerRemovedResponse { player_id, message })
    }

    /// What happens when `user_id` leaves `game_id`: a host leaving ends the game, anyone
    /// else is removed. `player` and `game` are the stored records, if found.
    pub fn decide_leave(
        game_id: i32,
        user_id: i32,
        player: Option<PlayerRecord>,
        game: Option<GameRecord>,
    ) -> (r: Result<(LeaveAction, LeaveGameResponse), AppError>)
        ensures
            player is None ==> r == Err::<(LeaveAction, LeaveGameResponse), AppError>(
                AppError::PlayerNotFound { player_id: 0, game_id },
            ),
            player is Some && game is None ==> (r matches Err(AppError::GameNotFound(t)) && t@
                == spec_signed_decimal(game_id as int)),
            player is Some && game is Some && game->0.host_id == user_id ==> (r matches Ok((a, resp))
                && a == LeaveAction::EndGame && resp.message@ == "Host left - game has been ended"@),
            player is Some && game is Some && game->0.host_id != user_id ==> (r matches Ok((a, resp))
                && a == LeaveAction::RemovePlayer(player->0.id) && resp.message@
                == "You have left the game"@),
    {
        let p = match player {
            Some(p) => p,
            None => return Err(AppError::PlayerNotFound { player_id: 0, game_id }),
        };
        let g = match game {
            Some(g) => g,
            None => return Err(GameService::game_not_found(game_id)),
        };
        if g.host_id == user_id {
            return Ok(
                (
                    LeaveAction::EndGame,
                    LeaveGameResponse { message: String::from_str("Host left - game has been ended") },
                ),
            );
        }
        Ok((LeaveAction::RemovePlayer(p.id), LeaveGameResponse { message: String::from_str("You have left the game") }))
    }
}

}
