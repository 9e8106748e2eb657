//! Game creation, lookup by code, and start/finish decisions.
use vstd::prelude::*;
use vstd::string::*;
use crate::dto::{CreateGameRequest, GameSettings, GameStatusResponse};
use crate::dto::game::spec_max_players;
use crate::entities::game_status::{GameStatus, spec_status_of};
use crate::entities::games::GameRecord;
use crate::errors::AppError;
use crate::text::{append_signed_decimal, spec_signed_decimal, spec_trim, unicode_lowercase, unicode_uppercase};
use crate::utils::game_code::{is_valid_game_code, normalize_game_code, spec_valid_game_code};

verus! {

/// Maximum attempts to generate a unique game code.
pub const MAX_CODE_GENERATION_ATTEMPTS: u32 = 10;

/// Game creation, lookup and lifecycle rules.
pub struct GameService;

/// What to do after drawing a candidate join code.
#[derive(Debug, Clone)]
pub enum CodeSearch {
    /// The candidate is free: use it.
    Accept,
    /// The candidate is taken: draw another.
    Retry,
    /// Every attempt was taken: give up with this error.
    GiveUp(AppError),
}

/// A game about to be stored.
#[derive(Debug, Clone)]
pub struct NewGame {
    pub code: String,
    pub host_id: i32,
    pub status: String,
    pub settings: GameSettings,
}

/// The status a stored status text counts as when starting: unreadable text counts as lobby.
pub open spec fn start_status(text: Seq<char>) -> GameStatus {
    match spec_status_of(unicode_lowercase(text)) {
        Some(s) => s,
        None => GameStatus::Lobby,
    }
}

impl GameService {
    /// Decide after the `attempts_made`-th candidate code was checked against stored games.
    pub fn code_search_step(attempts_made: u32, candidate_taken: bool) -> (r: CodeSearch)
        requires
            1 <= attempts_made <= MAX_CODE_GENERATION_ATTEMPTS,
        ensures
            !candidate_taken ==> r is Accept,
            candidate_taken && attempts_made < MAX_CODE_GENERATION_ATTEMPTS ==> r is Retry,
            candidate_taken && attempts_made == MAX_CODE_GENERATION_ATTEMPTS ==> (r matches CodeSearch::GiveUp(
                AppError::Internal(m),
            ) && m@ == "Failed to generate unique game code after multiple attempts"@),
    {
        if !candidate_taken {
            CodeSearch::Accept
        } else if attempts_made < MAX_CODE_GENERATION_ATTEMPTS {
            CodeSearch::Retry
        } else {
            CodeSearch::GiveUp(
                AppError::Internal(
                    String::from_str("Failed to generate unique game code after multiple attempts"),
                ),
            )
        }
    }

    /// The game to store for a create request: in the lobby, with defaulted settings.
    pub fn new_game(host_id: i32, code: String, request: CreateGameRequest) -> (r: NewGame)
        ensures
            r.code == code,
            r.host_id == host_id,
            r.status@ == "lobby"@,
            r.settings.max_players == spec_max_players(request.max_players),
            r.settings.game_type@ == match request.game_type {
                Some(t) => t@,
                None => "default"@,
            },
    {
        let settings = GameSettings::new(request.max_players, request.game_type);
        NewGame { code, host_id, status: String::from_str(GameStatus::Lobby.as_str()), settings }
    }

    /// The stored settings, or the default ones when they are absent or unreadable.
    pub fn settings_or_default(settings: Option<GameSettings>) -> (r: GameSettings)
        ensures
            settings matches Some(s) ==> r == s,
            settings is None ==> r.max_players == 8 && r.game_type@ == "default"@,
    {
        match settings {
            Some(s) => s,
            None => GameSettings::default(),
        }
    }

    /// The error for a game id that matches no game.
    pub fn game_not_found(game_id: i32) -> (e: AppError)
        ensures
            e matches AppError::GameNotFound(t) && t@ == spec_signed_decimal(game_id as int),
    {
        let mut t = String::new();
        append_signed_decimal(&mut t, game_id as i64);
        AppError::GameNotFound(t)
    }

    /// The normalized code to look a game up by, or `InvalidGameCode` with the code as given.
    pub fn check_game_code(code: &str) -> (r: Result<String, AppError>)
        ensures
            spec_valid_game_code(unicode_uppercase(spec_trim(code@))) ==> (r matches Ok(n) && n@
                == unicode_uppercase(spec_trim(code@))),
            !spec_valid_game_code(unicode_uppercase(spec_trim(code@))) ==> (r matches Err(
                AppError::InvalidGameCode(c),
            ) && c@ == code@),
    {
        let normalized = normalize_game_code(code);
        if !is_valid_game_code(normalized.as_str()) {
            return Err(AppError::InvalidGameCode(String::from_str(code)));
        }
        Ok(normalized)
    }

    /// Start a game (host only): refused for anyone but the host, outside the lobby, or
    /// with fewer than two players.
    pub fn check_start(game: &GameRecord, host_id: i32, player_count: u64) -> (r: Result<
        GameStatusResponse,
        AppError,
    >)
        ensures
            game.host_id != host_id ==> (r matches Err(AppError::NotHost { action }) && action@
                == "start the game"@),
            game.host_id == host_id && start_status(game.status@) != GameStatus::Lobby ==> (r matches Err(
                AppError::InvalidGameState { current, required },
            ) && current@ == game.status@ && required@ == "lobby"@),
            game.host_id == host_id && start_status(game.status@) == GameStatus::Lobby && player_count
                < 2 ==> (r matches Err(AppError::Validation(m)) && m@
                == "At least 2 players required to start the game"@),
            r is Ok <==> (game.host_id == host_id && start_status(game.status@) == GameStatus::Lobby
                && player_count >= 2),
            r matches Ok(resp) ==> resp.id == game.id && resp.status@ == "playing"@ && resp.message@
                == "Game started successfully"@,
    {
        if game.host_id != host_id {
            return Err(AppError::NotHost { action: String::from_str("start the game") });
        }
        let current_status = match GameStatus::from_str(game.status.as_str()) {
            Some(s) => s,
            None => GameStatus::Lobby,
        };
        if !current_status.can_start() {
            return Err(
                AppError::InvalidGameState {
                    current: game.status.clone(),
                    required: String::from_str("lobby"),
                },
            );
        }
        if player_count < 2 {
            return Err(AppError::Validation(String::from_str("At least 2 players required to start the game")));
        }
        Ok(
            GameStatusResponse {
                id: game.id,
                status: String::from_str(GameStatus::Playing.as_str()),
                message: String::from_str("Game started successfully"),
            },
        )
    }

    /// The answer for a game that has been set to finished.
    pub fn finished_response(game_id: i32) -> (r: GameStatusResponse)
        ensures
            r.id == game_id,
            r.status@ == "finished"@,
            r.message@ == "Game finished"@,
    {
        GameStatusResponse {
            id: game_id,
            status: String::from_str(GameStatus::Finished.as_str()),
            message: String::from_str("Game finished"),
        }
    }
}

}
