//! Error kinds of the game and player services, and the HTTP answer to each.
use vstd::prelude::*;
use vstd::string::*;
use crate::text::{append_decimal, append_signed_decimal, spec_decimal, spec_signed_decimal};

verus! {

/// API error response format.
#[derive(Debug, Clone, PartialEq, Eq)]
pub struct ErrorResponse {
    /// Error code for client handling
    pub code: String,
    /// Human-readable error message
    pub message: String,
    /// Optional additional details
    pub details: Option<String>,
}

/// Application error types.
#[derive(Debug, Clone, PartialEq, Eq)]
pub enum AppError {
    /// Database operation failed
    Database(String),
    /// Configuration error
    Config(String),
    /// Validation error
    Validation(String),
    /// Resource not found
    NotFound(String),
    /// Internal server error
    Internal(String),
    /// Game not found by ID or code
    GameNotFound(String),
    /// Game is full, cannot join
    GameFull { game_code: String, max_players: u8 },
    /// Invalid game code format
    InvalidGameCode(String),
    /// Game status doesn't allow this operation
    InvalidGameState { current: String, required: String },
    /// Player not found in game
    PlayerNotFound { player_id: i32, game_id: i32 },
    /// Nickname already taken in game
    NicknameTaken { nickname: String, game_code: String },
    /// User already in game
    AlreadyInGame { user_id: i32, game_code: String },
    /// Not authorized (not host for host-only action)
    NotHost { action: String },
    /// Invalid nickname format
    InvalidNickname(String),
    /// Player token invalid or expired
    InvalidPlayerToken,
}

/// HTTP status of each error.
pub open spec fn spec_status(e: AppError) -> u16 {
    match e {
        AppError::Database(_) | AppError::Config(_) | AppError::Internal(_) => 500,
        AppError::Validation(_) | AppError::InvalidGameCode(_) | AppError::InvalidNickname(_) => 400,
        AppError::NotFound(_) | AppError::GameNotFound(_) | AppError::PlayerNotFound { .. } => 404,
        AppError::GameFull { .. } | AppError::InvalidGameState { .. } | AppError::NicknameTaken { .. }
        | AppError::AlreadyInGame { .. } => 409,
        AppError::NotHost { .. } => 403,
        AppError::InvalidPlayerToken => 401,
    }
}

/// Machine-readable code of each error.
pub open spec fn spec_code(e: AppError) -> Seq<char> {
    match e {
        AppError::Database(_) => "DATABASE_ERROR"@,
        AppError::Config(_) => "CONFIG_ERROR"@,
        AppError::Validation(_) => "VALIDATION_ERROR"@,
        AppError::NotFound(_) => "NOT_FOUND"@,
        AppError::Internal(_) => "INTERNAL_ERROR"@,
        AppError::GameNotFound(_) => "GAME_NOT_FOUND"@,
        AppError::GameFull { .. } => "GAME_FULL"@,
        AppError::InvalidGameCode(_) => "INVALID_GAME_CODE"@,
        AppError::InvalidGameState { .. } => "INVALID_GAME_STATE"@,
        AppError::PlayerNotFound { .. } => "PLAYER_NOT_FOUND"@,
        AppError::NicknameTaken { .. } => "NICKNAME_TAKEN"@,
        AppError::AlreadyInGame { .. } => "ALREADY_IN_GAME"@,
        AppError::NotHost { .. } => "NOT_HOST"@,
        AppError::InvalidNickname(_) => "INVALID_NICKNAME"@,
        AppError::InvalidPlayerToken => "INVALID_PLAYER_TOKEN"@,
    }
}

/// Message sent to the client for each error.
pub open spec fn spec_message(e: AppError) -> Seq<char> {
    match e {
        AppError::Database(m) | AppError::Config(m) | AppError::Validation(m) | AppError::NotFound(
            m,
        ) | AppError::Internal(m) => m@,
        AppError::GameNotFound(code) => "Game with code '"@ + code@ + "' not found"@,
        AppError::GameFull { game_code, max_players } => "Game '"@ + game_code@ + "' is full ("@
            + spec_decimal(max_players as nat) + " players max)"@,
        AppError::InvalidGameCode(code) => "Invalid game code format: '"@ + code@ + "'"@,
        AppError::InvalidGameState { current, required } => "Game is in '"@ + current@
            + "' state, but '"@ + required@ + "' is required"@,
        AppError::PlayerNotFound { player_id, game_id } => "Player "@ + spec_signed_decimal(
            player_id as int,
        ) + " not found in game "@ + spec_signed_decimal(game_id as int),
        AppError::NicknameTaken { nickname, game_code } => "Nickname '"@ + nickname@
            + "' is already taken in game '"@ + game_code@ + "'"@,
        AppError::AlreadyInGame { user_id, game_code } => "User "@ + spec_signed_decimal(
            user_id as int,
        ) + " is already in game '"@ + game_code@ + "'"@,
        AppError::NotHost { action } => "Only the host can "@ + action@,
        AppError::InvalidNickname(reason) => "Invalid nickname: "@ + reason@,
        AppError::InvalidPlayerToken => "Invalid or expired player token"@,
    }
}

/// Text of each error as it is logged (its `Display`).
pub open spec fn spec_display(e: AppError) -> Seq<char> {
    match e {
        AppError::Database(m) => "Database error: "@ + m@,
        AppError::Config(m) => "Configuration error: "@ + m@,
        AppError::Validation(m) => "Validation error: "@ + m@,
        AppError::NotFound(m) => "Not found: "@ + m@,
        AppError::Internal(m) => "Internal error: "@ + m@,
        AppError::GameNotFound(code) => "Game not found: "@ + code@,
        AppError::GameFull { game_code, max_players } => "Game '"@ + game_code@ + "' is full (max "@
            + spec_decimal(max_players as nat) + " players)"@,
        AppError::InvalidGameCode(code) => "Invalid game code: "@ + code@,
        AppError::InvalidGameState { current, required } => "Invalid game state: current '"@
            + current@ + "', required '"@ + required@ + "'"@,
        AppError::PlayerNotFound { player_id, game_id } => "Player "@ + spec_signed_decimal(
            player_id as int,
        ) + " not found in game "@ + spec_signed_decimal(game_id as int),
        AppError::NicknameTaken { nickname, game_code } => "Nickname '"@ + nickname@
            + "' already taken in game '"@ + game_code@ + "'"@,
        AppError::AlreadyInGame { user_id, game_code } => "User "@ + spec_signed_decimal(
            user_id as int,
        ) + " already in game '"@ + game_code@ + "'"@,
        AppError::NotHost { action } => "Only the host can perform: "@ + action@,
        AppError::InvalidNickname(reason) => "Invalid nickname: "@ + reason@,
        AppError::InvalidPlayerToken => "Invalid or expired player token"@,
    }
}

/// `a + b` as a new string.
fn join2(a: &str, b: &str) -> (r: String)
    ensures
        r@ == a@ + b@,
{
    let mut r = String::from_str(a);
    r.append(b);
    r
}

/// `a + b + c` as a new string.
fn join3(a: &str, b: &str, c: &str) -> (r: String)
    ensures
        r@ == a@ + b@ + c@,
{
    let mut r = String::from_str(a);
    r.append(b);
    r.append(c);
    r
}

/// `a + b + c + d + e` as a new string.
fn join5(a: &str, b: &str, c: &str, d: &str, e: &str) -> (r: String)
    ensures
        r@ == a@ + b@ + c@ + d@ + e@,
{
    let mut r = String::from_str(a);
    r.append(b);
    r.append(c);
    r.append(d);
    r.append(e);
    r
}

/// `a + decimal(m) + b + decimal(n)`.
fn join_two_numbers(a: &str, m: i32, b: &str, n: i32) -> (r: String)
    ensures
        r@ == a@ + spec_signed_decimal(m as int) + b@ + spec_signed_decimal(n as int),
{
    let mut r = String::from_str(a);
    append_signed_decimal(&mut r, m as i64);
    r.append(b);
    append_signed_decimal(&mut r, n as i64);
    r
}

impl AppError {
    /// HTTP status code of the error.
    pub fn status_code(&self) -> (r: u16)
        ensures
            r == spec_status(*self),
    {
        match self {
            AppError::Database(_) | AppError::Config(_) | AppError::Internal(_) => 500,
            AppError::Validation(_) | AppError::InvalidGameCode(_) | AppError::InvalidNickname(_) => 400,
            AppError::NotFound(_) | AppError::GameNotFound(_) | AppError::PlayerNotFound { .. } => 404,
            AppError::GameFull { .. } | AppError::InvalidGameState { .. } | AppError::NicknameTaken {
                ..
            } | AppError::AlreadyInGame { .. } => 409,
            AppError::NotHost { .. } => 403,
            AppError::InvalidPlayerToken => 401,
        }
    }

    /// Machine-readable error code.
    pub fn code(&self) -> (r: &'static str)
        ensures
            r@ == spec_code(*self),
    {
        match self {
            AppError::Database(_) => "DATABASE_ERROR",
            AppError::Config(_) => "CONFIG_ERROR",
            AppError::Validation(_) => "VALIDATION_ERROR",
            AppError::NotFound(_) => "NOT_FOUND",
            AppError::Internal(_) => "INTERNAL_ERROR",
            AppError::GameNotFound(_) => "GAME_NOT_FOUND",
            AppError::GameFull { .. } => "GAME_FULL",
            AppError::InvalidGameCode(_) => "INVALID_GAME_CODE",
            AppError::InvalidGameState { .. } => "INVALID_GAME_STATE",
            AppError::PlayerNotFound { .. } => "PLAYER_NOT_FOUND",
            AppError::NicknameTaken { .. } => "NICKNAME_TAKEN",
            AppError::AlreadyInGame { .. } => "ALREADY_IN_GAME",
            AppError::NotHost { .. } => "NOT_HOST",
            AppError::InvalidNickname(_) => "INVALID_NICKNAME",
            AppError::InvalidPlayerToken => "INVALID_PLAYER_TOKEN",
        }
    }

    /// Message sent to the client.
    pub fn message(&self) -> (r: String)
        ensures
            r@ == spec_message(*self),
    {
        match self {
            AppError::Database(m) | AppError::Config(m) | AppError::Validation(m)
            | AppError::NotFound(m) | AppError::Internal(m) => m.clone(),
            AppError::GameNotFound(code) => join3("Game with code '", code.as_str(), "' not found"),
            AppError::GameFull { game_code, max_players } => {
                let mut r = join2("Game '", game_code.as_str());
                r.append("' is full (");
                append_decimal(&mut r, *max_players as u64);
                r.append(" players max)");
                r
            },
            AppError::InvalidGameCode(code) => join3("Invalid game code format: '", code.as_str(), "'"),
            AppError::InvalidGameState { current, required } => join5(
                "Game is in '",
                current.as_str(),
                "' state, but '",
                required.as_str(),
                "' is required",
            ),
            AppError::PlayerNotFound { player_id, game_id } => join_two_numbers(
                "Player ",
                *player_id,
                " not found in game ",
                *game_id,
            ),
            AppError::NicknameTaken { nickname, game_code } => join5(
                "Nickname '",
                nickname.as_str(),
                "' is already taken in game '",
                game_code.as_str(),
                "'",
            ),
            AppError::AlreadyInGame { user_id, game_code } => {
                let mut r = String::from_str("User ");
                append_signed_decimal(&mut r, *user_id as i64);
                r.append(" is already in game '");
                r.append(game_code.as_str());
                r.append("'");
                r
            },
            AppError::NotHost { action } => join2("Only the host can ", action.as_str()),
            AppError::InvalidNickname(reason) => join2("Invalid nickname: ", reason.as_str()),
            AppError::InvalidPlayerToken => String::from_str("Invalid or expired player token"),
        }
    }

    /// Text of the error as it is logged (what `Display` prints).
    pub fn display(&self) -> (r: String)
        ensures
            r@ == spec_display(*self),
    {
        match self {
            AppError::Database(m) => join2("Database error: ", m.as_str()),
            AppError::Config(m) => join2("Configuration error: ", m.as_str()),
            AppError::Validation(m) => join2("Validation error: ", m.as_str()),
            AppError::NotFound(m) => join2("Not found: ", m.as_str()),
            AppError::Internal(m) => join2("Internal error: ", m.as_str()),
            AppError::GameNotFound(code) => join2("Game not found: ", code.as_str()),
            AppError::GameFull { game_code, max_players } => {
                let mut r = join2("Game '", game_code.as_str());
                r.append("' is full (max ");
                append_decimal(&mut r, *max_players as u64);
                r.append(" players)");
                r
            },
            AppError::InvalidGameCode(code) => join2("Invalid game code: ", code.as_str()),
            AppError::InvalidGameState { current, required } => join5(
                "Invalid game state: current '",
                current.as_str(),
                "', required '",
                required.as_str(),
                "'",
            ),
            AppError::PlayerNotFound { player_id, game_id } => join_two_numbers(
                "Player ",
                *player_id,
                " not found in game ",
                *game_id,
            ),
            AppError::NicknameTaken { nickname, game_code } => join5(
                "Nickname '",
                nickname.as_str(),
                "' already taken in game '",
                game_code.as_str(),
                "'",
            ),
            AppError::AlreadyInGame { user_id, game_code } => {
                let mut r = String::from_str("User ");
                append_signed_decimal(&mut r, *user_id as i64);
                r.append(" already in game '");
                r.append(game_code.as_str());
                r.append("'");
                r
            },
            AppError::NotHost { action } => join2("Only the host can perform: ", action.as_str()),
            AppError::InvalidNickname(reason) => join2("Invalid nickname: ", reason.as_str()),
            AppError::InvalidPlayerToken => String::from_str("Invalid or expired player token"),
        }
    }

    /// The HTTP answer to the error: its status and JSON body.
    pub fn to_response(&self) -> (r: (u16, ErrorResponse))
        ensures
            r.0 == spec_status(*self),
            r.1.code@ == spec_code(*self),
            r.1.message@ == spec_message(*self),
            r.1.details is None,
    {
        let status = self.status_code();
        let code = String::from_str(self.code());
        let message = self.message();
        (status, ErrorResponse { code, message, details: None })
    }
}

}
