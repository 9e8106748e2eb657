use aircade_api::error::AppError;
use aircade_api::routes::sessions::{
    authorize_host, authorize_player, check_end_session, check_game_published,
    check_join_session, check_load_game, loaded_codes, check_ws_request, random_session_code,
    require_player_id, require_version, route_ws_message, session_code_step,
    session_lookup_code, session_max_players, version_to_load, HostToken, RequestedRole,
    SessionCodeSearch, VersionChoice, WsRoute, SESSION_CODE_LENGTH,
};
use aircade_api::sessions::{ClientRole, SessionManager};
use aircade_api::utils::game_code::is_valid_game_code;

const S1: u128 = 0x0102_0304_0506_4708_8900_0000_0000_0001;
const S2: u128 = 0x0102_0304_0506_4708_8900_0000_0000_0002;
const HOST: u128 = 0x550e8400_e29b_41d4_a716_446655440000;

#[test]
fn registry_register_unregister() {
    let mut m = SessionManager::new();
    assert!(!m.is_connected(S1, &ClientRole::Host));
    assert_eq!(m.register(S1, ClientRole::Host, 10), None);
    assert_eq!(m.register(S1, ClientRole::Player(7), 11), None);
    assert_eq!(m.register(S2, ClientRole::Player(7), 12), None);
    assert!(m.is_connected(S1, &ClientRole::Host));
    assert!(m.is_connected(S1, &ClientRole::Player(7)));
    assert!(!m.is_connected(S2, &ClientRole::Host));
    assert_eq!(m.send_to_host(S1), Some(10));
    assert_eq!(m.send_to_player(S2, 7), Some(12));
    assert_eq!(m.send_to_player(S2, 8), None);
    // reconnecting replaces the earlier connection
    assert_eq!(m.register(S1, ClientRole::Host, 20), Some(10));
    assert_eq!(m.send_to_host(S1), Some(20));
    assert_eq!(m.unregister(S1, &ClientRole::Host), Some(20));
    assert!(!m.is_connected(S1, &ClientRole::Host));
    assert_eq!(m.unregister(S1, &ClientRole::Host), None);
    assert!(m.is_connected(S1, &ClientRole::Player(7)));
}

fn sorted(mut v: Vec<u64>) -> Vec<u64> {
    v.sort();
    v
}

#[test]
fn registry_recipients() {
    let mut m = SessionManager::new();
    m.register(S1, ClientRole::Player(1), 1);
    m.register(S1, ClientRole::Host, 2);
    m.register(S2, ClientRole::Player(1), 3);
    m.register(S1, ClientRole::Player(2), 4);
    assert_eq!(sorted(m.broadcast(S1)), vec![1, 2, 4]);
    assert_eq!(sorted(m.broadcast_to_players(S1)), vec![1, 4]);
    assert_eq!(m.broadcast(S2), vec![3]);
    assert!(m.has_connected_players(S1));
    assert_eq!(sorted(m.remove_session(S1)), vec![1, 2, 4]);
    assert!(m.broadcast(S1).is_empty());
    assert!(!m.has_connected_players(S1));
    assert!(m.is_connected(S2, &ClientRole::Player(1)));
    m.register(S1, ClientRole::Host, 5);
    assert!(!m.has_connected_players(S1));
}

#[test]
fn session_codes() {
    for _ in 0..100 {
        let code = random_session_code();
        assert_eq!(code.len(), SESSION_CODE_LENGTH);
        assert!(is_valid_game_code(&format!("{code}A")));
    }
    assert!(matches!(session_code_step(1, false), SessionCodeSearch::Accept));
    assert!(matches!(session_code_step(19, true), SessionCodeSearch::Retry));
    match session_code_step(20, true) {
        SessionCodeSearch::GiveUp(AppError::Internal(m)) => {
            assert_eq!(m, "Failed to generate unique session code after 20 attempts")
        }
        _ => panic!("expected to give up"),
    }
    assert_eq!(session_lookup_code("ab3cd"), "AB3CD");
}

#[test]
fn session_player_limits() {
    assert_eq!(session_max_players(None), 8);
    assert_eq!(session_max_players(Some(0)), 1);
    assert_eq!(session_max_players(Some(-5)), 1);
    assert_eq!(session_max_players(Some(100)), 32);
    assert_eq!(session_max_players(Some(12)), 12);
}

#[test]
fn joining_a_session() {
    assert_eq!(check_join_session("lobby", 0, 8, "  Ann  "), Ok("Ann".to_string()));
    assert_eq!(
        check_join_session("ended", 0, 8, "Ann"),
        Err(AppError::BadRequest("Session has ended.".to_string()))
    );
    assert_eq!(
        check_join_session("playing", 8, 8, "Ann"),
        Err(AppError::BadRequest("Session is full.".to_string()))
    );
    assert!(check_join_session("playing", 7, -1, "Ann").is_ok());
    assert!(check_join_session("playing", 8, -1, "Ann").is_err());
    assert_eq!(
        check_join_session("lobby", 0, 8, "   "),
        Err(AppError::BadRequest("Display name must be between 1 and 100 characters.".to_string()))
    );
    assert!(check_join_session("lobby", 0, 8, &"n".repeat(100)).is_ok());
    assert!(check_join_session("lobby", 0, 8, &"n".repeat(101)).is_err());
    assert!(check_join_session("lobby", 0, 8, &"é".repeat(50)).is_ok());
    assert!(check_join_session("lobby", 0, 8, &"é".repeat(51)).is_err());
}

#[test]
fn ending_and_loading() {
    assert!(check_end_session(HOST, HOST, "lobby").is_ok());
    assert_eq!(
        check_end_session(HOST, 1, "lobby"),
        Err(AppError::Forbidden("Only the session host can end the session.".to_string()))
    );
    assert_eq!(
        check_end_session(HOST, HOST, "ended"),
        Err(AppError::BadRequest("Session is already ended.".to_string()))
    );
    assert!(check_load_game(HOST, HOST, "playing").is_ok());
    assert_eq!(
        check_load_game(HOST, 2, "lobby"),
        Err(AppError::Forbidden("Only the session host can load a game.".to_string()))
    );
    assert_eq!(
        check_load_game(HOST, HOST, "ended"),
        Err(AppError::BadRequest("Session has ended.".to_string()))
    );
    assert!(check_game_published("published").is_ok());
    assert_eq!(
        check_game_published("draft"),
        Err(AppError::BadRequest("Game is not published.".to_string()))
    );
    assert_eq!(version_to_load(Some(9)), VersionChoice::Published(9));
    assert_eq!(version_to_load(None), VersionChoice::Latest);
    assert_eq!(require_version(Some(3)), Ok(3));
    assert_eq!(
        require_version(None),
        Err(AppError::NotFound("No game version found.".to_string()))
    );
}

#[test]
fn websocket_admission() {
    assert_eq!(check_ws_request("lobby", "host"), Ok(RequestedRole::Host));
    assert_eq!(check_ws_request("playing", "player"), Ok(RequestedRole::Player));
    assert_eq!(
        check_ws_request("lobby", "viewer"),
        Err(AppError::BadRequest("Invalid role. Must be 'host' or 'player'.".to_string()))
    );
    assert_eq!(
        check_ws_request("ended", "host"),
        Err(AppError::BadRequest("Session has ended.".to_string()))
    );
    let subject = HostToken::Subject("550e8400-e29b-41d4-a716-446655440000".to_string());
    assert_eq!(authorize_host(&subject, HOST), Ok(ClientRole::Host));
    assert_eq!(
        authorize_host(&subject, 5),
        Err(AppError::Forbidden("Only the session host can connect as host.".to_string()))
    );
    assert_eq!(
        authorize_host(&HostToken::Subject("abc".to_string()), HOST),
        Err(AppError::Unauthorized("Invalid token subject.".to_string()))
    );
    assert_eq!(
        authorize_host(&HostToken::Missing, HOST),
        Err(AppError::Unauthorized("Token required for host connection.".to_string()))
    );
    assert_eq!(
        authorize_host(&HostToken::Invalid, HOST),
        Err(AppError::Unauthorized("Invalid or expired token.".to_string()))
    );
    assert_eq!(require_player_id(Some(4)), Ok(4));
    assert_eq!(
        require_player_id(None),
        Err(AppError::BadRequest("playerId is required for player connections.".to_string()))
    );
    assert_eq!(authorize_player(4, Some(S1), S1), Ok(ClientRole::Player(4)));
    assert_eq!(
        authorize_player(4, Some(S2), S1),
        Err(AppError::BadRequest("Player does not belong to this session.".to_string()))
    );
    assert_eq!(
        authorize_player(4, None, S1),
        Err(AppError::NotFound("Player not found.".to_string()))
    );
}

#[test]
fn websocket_message_routing() {
    assert_eq!(route_ws_message("player_input", &ClientRole::Player(3)), WsRoute::InputToHost(3));
    assert_eq!(route_ws_message("game_state_update", &ClientRole::Host), WsRoute::StateToPlayers);
    assert_eq!(route_ws_message("player_input", &ClientRole::Host), WsRoute::Ignore);
    assert_eq!(route_ws_message("game_state_update", &ClientRole::Player(3)), WsRoute::Ignore);
    assert_eq!(route_ws_message("chat", &ClientRole::Player(3)), WsRoute::Ignore);
}

#[test]
fn registering_then_unregistering_restores_the_registry() {
    let mut m = SessionManager::new();
    m.register(S1, ClientRole::Host, 1);
    m.register(S1, ClientRole::Player(5), 2);
    let before = sorted(m.broadcast(S1));
    assert_eq!(m.register(S1, ClientRole::Player(6), 3), None);
    assert_eq!(sorted(m.broadcast(S1)), vec![1, 2, 3]);
    assert_eq!(m.unregister(S1, &ClientRole::Player(6)), Some(3));
    assert_eq!(sorted(m.broadcast(S1)), before);
    assert!(!m.is_connected(S1, &ClientRole::Player(6)));
}

#[test]
fn loaded_codes_go_to_their_screens() {
    let codes = loaded_codes(Some("screen".to_string()), Some("pad".to_string()));
    assert_eq!(codes.to_host, Some("screen".to_string()));
    assert_eq!(codes.to_players, Some("pad".to_string()));
    let none = loaded_codes(None, Some("pad".to_string()));
    assert_eq!(none.to_host, None);
}
