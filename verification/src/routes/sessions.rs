//! The decisions of the session endpoints: session codes, joining, ending, loading a
//! game, who may open a WebSocket, and where an inbound WebSocket message goes.
use vstd::prelude::*;
use vstd::string::*;
use vstd::utf8::encode_utf8;
use crate::error::AppError;
use crate::ids::{parse_uuid, parsed_uuid};
use crate::random::random_below;
use crate::sessions::ClientRole;
use crate::text::{byte_len, push_char, spec_trim, str_eq, to_uppercase, trim, unicode_uppercase};
use crate::utils::game_code::{
    all_alphabet_chars, alphabet_byte, is_code_byte, GAME_CODE_ALPHABET_SIZE,
};

verus! {

/// Number of characters of a session code.
pub const SESSION_CODE_LENGTH: usize = 5;

/// How many candidate session codes are drawn before giving up.
pub const MAX_SESSION_CODE_ATTEMPTS: u32 = 20;

/// Players allowed in a session when the request names no limit.
pub const DEFAULT_SESSION_MAX_PLAYERS: i32 = 8;

/// Longest display name of a session player, in bytes of UTF-8.
pub const MAX_DISPLAY_NAME_BYTES: usize = 100;

/// Generate a random session code over the join-code alphabet (the caller checks it
/// against the active sessions).
pub fn random_session_code() -> (r: String)
    ensures
        r@.len() == SESSION_CODE_LENGTH,
        all_alphabet_chars(r@),
{
    let mut r = String::new();
    let mut k: usize = 0;
    while k < SESSION_CODE_LENGTH
        invariant
            k <= SESSION_CODE_LENGTH,
            r@.len() == k,
            all_alphabet_chars(r@),
        decreases SESSION_CODE_LENGTH - k,
    {
        let idx = random_below(GAME_CODE_ALPHABET_SIZE);
        let b = alphabet_byte(idx);
        let ghost old_r = r@;
        push_char(&mut r, b as char);
        assert(r@ == old_r.push(b as char));
        assert forall|i: int| 0 <= i < r@.len() implies (r@[i] as u32) < 128 && is_code_byte(
            #[trigger] (r@[i] as u32) as u8,
        ) by {
            if i < old_r.len() {
                assert(r@[i] == old_r[i]);
            }
        }
        k = k + 1;
    }
    r
}

/// What to do after a candidate session code was checked against the active sessions.
#[derive(Debug, Clone)]
pub enum SessionCodeSearch {
    /// The candidate is free: use it.
    Accept,
    /// The candidate is in use: draw another.
    Retry,
    /// Every attempt was in use: give up with this error.
    GiveUp(AppError),
}

/// Decide after the `attempts_made`-th candidate session code was checked.
pub fn session_code_step(attempts_made: u32, candidate_taken: bool) -> (r: SessionCodeSearch)
    requires
        1 <= attempts_made <= MAX_SESSION_CODE_ATTEMPTS,
    ensures
        !candidate_taken ==> r is Accept,
        candidate_taken && attempts_made < MAX_SESSION_CODE_ATTEMPTS ==> r is Retry,
        candidate_taken && attempts_made == MAX_SESSION_CODE_ATTEMPTS ==> (r matches SessionCodeSearch::GiveUp(
            AppError::Internal(m),
        ) && m@ == "Failed to generate unique session code after 20 attempts"@),
{
    if !candidate_taken {
        SessionCodeSearch::Accept
    } else if attempts_made < MAX_SESSION_CODE_ATTEMPTS {
        SessionCodeSearch::Retry
    } else {
        SessionCodeSearch::GiveUp(
            AppError::Internal(String::from_str("Failed to generate unique session code after 20 attempts")),
        )
    }
}

/// The player limit a session is created with: the requested one (8 when absent),
/// clamped to 1..=32.
pub open spec fn spec_session_max_players(requested: Option<i32>) -> i32 {
    let m = match requested {
        Some(m) => m,
        None => 8i32,
    };
    if m < 1 {
        1
    } else if m > 32 {
        32
    } else {
        m
    }
}

/// The player limit a session is created with.
pub fn session_max_players(requested: Option<i32>) -> (r: i32)
    ensures
        r == spec_session_max_players(requested),
        1 <= r <= 32,
        requested is None ==> r == 8,
        requested matches Some(m) ==> (1 <= m <= 32 ==> r == m),
        requested matches Some(m) && m < 1 ==> r == 1,
        requested matches Some(m) && m > 32 ==> r == 32,
{
    let m = match requested {
        Some(m) => m,
        None => DEFAULT_SESSION_MAX_PLAYERS,
    };
    if m < 1 {
        1
    } else if m > 32 {
        32
    } else {
        m
    }
}

/// A new session's player limit is the requested one whenever it lies in 1..=32; a
/// request below 1 gives 1, one above 32 gives 32, and no request gives 8.
pub proof fn lemma_session_limit_follows_request(requested: Option<i32>)
    ensures
        requested is None ==> spec_session_max_players(requested) == 8,
        requested matches Some(m) ==> (1 <= m <= 32 ==> spec_session_max_players(requested) == m),
        requested matches Some(m) && m < 1 ==> spec_session_max_players(requested) == 1,
        requested matches Some(m) && m > 32 ==> spec_session_max_players(requested) == 32,
{
}

/// Asking for a larger session never gives a smaller limit.
pub proof fn lemma_session_limit_monotonic(a: i32, b: i32)
    requires
        a <= b,
    ensures
        spec_session_max_players(Some(a)) <= spec_session_max_players(Some(b)),
{
}

/// A stored player limit that is not negative is the session's room exactly; a
/// negative one counts as 8.
pub proof fn lemma_capacity_is_stored_limit(max_players: i32)
    ensures
        max_players >= 0 ==> spec_player_capacity(max_players) == max_players,
        max_players < 0 ==> spec_player_capacity(max_players) == 8,
{
}

/// The code a session is looked up by: the code as given, upper-cased.
pub fn session_lookup_code(code: &str) -> (r: String)
    ensures
        r@ == unicode_uppercase(code@),
{
    to_uppercase(code)
}

/// How many active players a stored limit admits: a negative limit counts as 8.
pub open spec fn spec_player_capacity(max_players: i32) -> int {
    if max_players < 0 {
        8
    } else {
        max_players as int
    }
}

/// Joining a session: refused when it has ended, when it is full, or when the trimmed
/// display name is empty or longer than 100 bytes of UTF-8. Gives the display name to store.
pub fn check_join_session(status: &str, active_players: usize, max_players: i32, display_name: &str) -> (r:
    Result<String, AppError>)
    ensures
        status@ == "ended"@ ==> (r matches Err(AppError::BadRequest(m)) && m@ == "Session has ended."@),
        status@ != "ended"@ && active_players >= spec_player_capacity(max_players) ==> (r matches Err(
            AppError::BadRequest(m),
        ) && m@ == "Session is full."@),
        status@ != "ended"@ && active_players < spec_player_capacity(max_players) && (spec_trim(
            display_name@,
        ).len() == 0 || byte_len(spec_trim(display_name@)) > MAX_DISPLAY_NAME_BYTES) ==> (r matches Err(
            AppError::BadRequest(m),
        ) && m@ == "Display name must be between 1 and 100 characters."@),
        r matches Ok(name) ==> name@ == spec_trim(display_name@),
        status@ != "ended"@ && max_players >= 0 ==> ((r matches Err(AppError::BadRequest(m)) && m@
            == "Session is full."@) <==> active_players >= max_players),
        status@ != "ended"@ && max_players < 0 ==> ((r matches Err(AppError::BadRequest(m)) && m@
            == "Session is full."@) <==> active_players >= 8),
        r is Ok <==> (status@ != "ended"@ && active_players < spec_player_capacity(max_players)
            && spec_trim(display_name@).len() > 0 && byte_len(spec_trim(display_name@))
            <= MAX_DISPLAY_NAME_BYTES),
{
    if str_eq(status, "ended") {
        return Err(AppError::BadRequest(String::from_str("Session has ended.")));
    }
    let capacity: usize = if max_players < 0 {
        8
    } else {
        max_players as usize
    };
    if active_players >= capacity {
        return Err(AppError::BadRequest(String::from_str("Session is full.")));
    }
    let name = trim(display_name);
    proof {
        reveal_strlit("Session is full.");
        reveal_strlit("Display name must be between 1 and 100 characters.");
        assert("Session is full."@.len() != "Display name must be between 1 and 100 characters."@.len());
    }
    if name.unicode_len() == 0 || name.len() > MAX_DISPLAY_NAME_BYTES {
        return Err(
            AppError::BadRequest(String::from_str("Display name must be between 1 and 100 characters.")),
        );
    }
    Ok(String::from_str(name))
}

/// Ending a session: only its host may, and only once.
pub fn check_end_session(host_id: u128, user_id: u128, status: &str) -> (r: Result<(), AppError>)
    ensures
        host_id != user_id ==> (r matches Err(AppError::Forbidden(m)) && m@
            == "Only the session host can end the session."@),
        host_id == user_id && status@ == "ended"@ ==> (r matches Err(AppError::BadRequest(m)) && m@
            == "Session is already ended."@),
        r is Ok <==> (host_id == user_id && status@ != "ended"@),
{
    if host_id != user_id {
        return Err(AppError::Forbidden(String::from_str("Only the session host can end the session.")));
    }
    if str_eq(status, "ended") {
        return Err(AppError::BadRequest(String::from_str("Session is already ended.")));
    }
    Ok(())
}

/// Loading a game into a session: only its host may, and not once it has ended.
pub fn check_load_game(host_id: u128, user_id: u128, status: &str) -> (r: Result<(), AppError>)
    ensures
        host_id != user_id ==> (r matches Err(AppError::Forbidden(m)) && m@
            == "Only the session host can load a game."@),
        host_id == user_id && status@ == "ended"@ ==> (r matches Err(AppError::BadRequest(m)) && m@
            == "Session has ended."@),
        r is Ok <==> (host_id == user_id && status@ != "ended"@),
{
    if host_id != user_id {
        return Err(AppError::Forbidden(String::from_str("Only the session host can load a game.")));
    }
    if str_eq(status, "ended") {
        return Err(AppError::BadRequest(String::from_str("Session has ended.")));
    }
    Ok(())
}

/// Only a published game can be loaded into a session.
pub fn check_game_published(game_status: &str) -> (r: Result<(), AppError>)
    ensures
        r is Ok <==> game_status@ == "published"@,
        r matches Err(e) ==> (e matches AppError::BadRequest(m) && m@ == "Game is not published."@),
{
    if !str_eq(game_status, "published") {
        return Err(AppError::BadRequest(String::from_str("Game is not published.")));
    }
    Ok(())
}

/// Which version of a game to load.
#[derive(Debug, Clone, Copy, PartialEq, Eq)]
pub enum VersionChoice {
    /// The game's published version, by id.
    Published(u128),
    /// No version is marked published: the game's latest version.
    Latest,
}

/// The version to load: the published one when the game names one, else the latest.
pub fn version_to_load(published_version_id: Option<u128>) -> (r: VersionChoice)
    ensures
        published_version_id matches Some(v) ==> r == VersionChoice::Published(v),
        published_version_id is None ==> r == VersionChoice::Latest,
{
    match published_version_id {
        Some(v) => VersionChoice::Published(v),
        None => VersionChoice::Latest,
    }
}

/// A session can only take a game that has a version to load.
pub fn require_version(found: Option<u128>) -> (r: Result<u128, AppError>)
    ensures
        found matches Some(v) ==> r == Ok::<u128, AppError>(v),
        found is None ==> (r matches Err(AppError::NotFound(m)) && m@ == "No game version found."@),
{
    match found {
        Some(v) => Ok(v),
        None => Err(AppError::NotFound(String::from_str("No game version found."))),
    }
}

/// The status a session moves to once a game is loaded.
pub fn playing_status() -> (r: &'static str)
    ensures
        r@ == "playing"@,
{
    "playing"
}

/// The canvas codes a game load sends out: the game-screen code to the host's screen,
/// the controller code to the players' phones.
#[derive(Debug, Clone)]
pub struct LoadedCodes {
    pub to_host: Option<String>,
    pub to_players: Option<String>,
}

/// Which code of the loaded version goes to whom: the host gets the game-screen code
/// and the players get the controller code, never the other way round.
pub fn loaded_codes(game_screen_code: Option<String>, controller_screen_code: Option<String>) -> (r:
    LoadedCodes)
    ensures
        r.to_host == game_screen_code,
        r.to_players == controller_screen_code,
{
    LoadedCodes { to_host: game_screen_code, to_players: controller_screen_code }
}

/// The role asked for in a WebSocket upgrade.
#[derive(Debug, Clone, Copy, PartialEq, Eq)]
pub enum RequestedRole {
    Host,
    Player,
}

/// A WebSocket may only be opened on a session that has not ended, as `host` or
/// `player`.
pub fn check_ws_request(status: &str, role: &str) -> (r: Result<RequestedRole, AppError>)
    ensures
        status@ == "ended"@ ==> (r matches Err(AppError::BadRequest(m)) && m@ == "Session has ended."@),
        status@ != "ended"@ && role@ == "host"@ ==> r == Ok::<RequestedRole, AppError>(RequestedRole::Host),
        status@ != "ended"@ && role@ == "player"@ ==> r == Ok::<RequestedRole, AppError>(
            RequestedRole::Player,
        ),
        status@ != "ended"@ && role@ != "host"@ && role@ != "player"@ ==> (r matches Err(
            AppError::BadRequest(m),
        ) && m@ == "Invalid role. Must be 'host' or 'player'."@),
{
    if str_eq(status, "ended") {
        return Err(AppError::BadRequest(String::from_str("Session has ended.")));
    }
    proof {
        reveal_strlit("host");
        reveal_strlit("player");
        assert("host"@.len() != "player"@.len());
    }
    if str_eq(role, "host") {
        Ok(RequestedRole::Host)
    } else if str_eq(role, "player") {
        Ok(RequestedRole::Player)
    } else {
        Err(AppError::BadRequest(String::from_str("Invalid role. Must be 'host' or 'player'.")))
    }
}

/// What the token of a host connection gave.
#[derive(Debug, Clone)]
pub enum HostToken {
    /// No token came with the request.
    Missing,
    /// The token did not validate as an access token.
    Invalid,
    /// The token validated; its subject claim.
    Subject(String),
}

/// The decision on a host connection given the parsed subject of its token.
pub open spec fn spec_host_decision(token: HostToken, subject_id: Option<u128>, host_id: u128) -> Result<
    ClientRole,
    (u16, Seq<char>),
> {
    match token {
        HostToken::Missing => Err((401u16, "Token required for host connection."@)),
        HostToken::Invalid => Err((401u16, "Invalid or expired token."@)),
        HostToken::Subject(_) => match subject_id {
            None => Err((401u16, "Invalid token subject."@)),
            Some(u) => if u == host_id {
                Ok(ClientRole::Host)
            } else {
                Err((403u16, "Only the session host can connect as host."@))
            },
        },
    }
}

/// An error as (HTTP status, message) for the variants the WebSocket checks use.
pub open spec fn status_message(e: AppError) -> (u16, Seq<char>) {
    match e {
        AppError::Unauthorized(m) => (401u16, m@),
        AppError::Forbidden(m) => (403u16, m@),
        AppError::BadRequest(m) => (400u16, m@),
        AppError::NotFound(m) => (404u16, m@),
        _ => (500u16, Seq::empty()),
    }
}

/// Decides a host connection once the subject of its token, if any, was parsed.
pub fn decide_host(token: &HostToken, subject_id: Option<u128>, host_id: u128) -> (r: Result<ClientRole, AppError>)
    ensures
        r matches Ok(role) ==> spec_host_decision(*token, subject_id, host_id) == Ok::<
            ClientRole,
            (u16, Seq<char>),
        >(role),
        r matches Err(e) ==> spec_host_decision(*token, subject_id, host_id) == Err::<
            ClientRole,
            (u16, Seq<char>),
        >(status_message(e)),
        r is Ok <==> spec_host_decision(*token, subject_id, host_id) is Ok,
{
    match token {
        HostToken::Missing => Err(AppError::Unauthorized(String::from_str("Token required for host connection."))),
        HostToken::Invalid => Err(AppError::Unauthorized(String::from_str("Invalid or expired token."))),
        HostToken::Subject(_) => match subject_id {
            None => Err(AppError::Unauthorized(String::from_str("Invalid token subject."))),
            Some(u) => if u == host_id {
                Ok(ClientRole::Host)
            } else {
                Err(AppError::Forbidden(String::from_str("Only the session host can connect as host.")))
            },
        },
    }
}

/// A host connection is accepted with a valid token whose subject is the session's host.
pub fn authorize_host(token: &HostToken, host_id: u128) -> (r: Result<ClientRole, AppError>)
    ensures
        r matches Ok(role) ==> spec_host_decision(
            *token,
            match *token {
                HostToken::Subject(s) => parsed_uuid(s@),
                _ => None,
            },
            host_id,
        ) == Ok::<ClientRole, (u16, Seq<char>)>(role),
        r matches Err(e) ==> spec_host_decision(
            *token,
            match *token {
                HostToken::Subject(s) => parsed_uuid(s@),
                _ => None,
            },
            host_id,
        ) == Err::<ClientRole, (u16, Seq<char>)>(status_message(e)),
{
    let subject_id = match token {
        HostToken::Subject(s) => parse_uuid(s.as_str()),
        _ => None,
    };
    decide_host(token, subject_id, host_id)
}

/// A player connection must name its player.
pub fn require_player_id(player_id: Option<u128>) -> (r: Result<u128, AppError>)
    ensures
        player_id matches Some(p) ==> r == Ok::<u128, AppError>(p),
        player_id is None ==> (r matches Err(AppError::BadRequest(m)) && m@
            == "playerId is required for player connections."@),
{
    match player_id {
        Some(p) => Ok(p),
        None => Err(AppError::BadRequest(String::from_str("playerId is required for player connections."))),
    }
}

/// A player connection is accepted for a stored player of this session; `player_session`
/// is the session of the stored player, `None` when there is no such player.
pub fn authorize_player(player_id: u128, player_session: Option<u128>, session_id: u128) -> (r: Result<
    ClientRole,
    AppError,
>)
    ensures
        player_session is None ==> (r matches Err(AppError::NotFound(m)) && m@ == "Player not found."@),
        player_session matches Some(s) && s != session_id ==> (r matches Err(AppError::BadRequest(m)) && m@
            == "Player does not belong to this session."@),
        player_session == Some(session_id) ==> r == Ok::<ClientRole, AppError>(ClientRole::Player(player_id)),
{
    match player_session {
        None => Err(AppError::NotFound(String::from_str("Player not found."))),
        Some(s) => if s != session_id {
            Err(AppError::BadRequest(String::from_str("Player does not belong to this session.")))
        } else {
            Ok(ClientRole::Player(player_id))
        },
    }
}

/// Where an inbound WebSocket message goes.
#[derive(Debug, Clone, Copy, PartialEq, Eq)]
pub enum WsRoute {
    /// A player's input, relayed to the host as `player_input_event` with the player's id.
    InputToHost(u128),
    /// The host's game state, relayed to every player as `game_state`.
    StateToPlayers,
    /// Anything else is dropped.
    Ignore,
}

/// Route an inbound message by its `type` and the sender's role: a player's
/// `player_input` goes to the host, the host's `game_state_update` to the players.
pub fn route_ws_message(msg_type: &str, role: &ClientRole) -> (r: WsRoute)
    ensures
        r == (match *role {
            ClientRole::Player(p) => if msg_type@ == "player_input"@ {
                WsRoute::InputToHost(p)
            } else {
                WsRoute::Ignore
            },
            ClientRole::Host => if msg_type@ == "game_state_update"@ {
                WsRoute::StateToPlayers
            } else {
                WsRoute::Ignore
            },
        }),
{
    match role {
        ClientRole::Player(p) => if str_eq(msg_type, "player_input") {
            WsRoute::InputToHost(*p)
        } else {
            WsRoute::Ignore
        },
        ClientRole::Host => if str_eq(msg_type, "game_state_update") {
            WsRoute::StateToPlayers
        } else {
            WsRoute::Ignore
        },
    }
}

}
