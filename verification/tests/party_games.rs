use aircade_api::dto::{CreateGameRequest, GameSettings};
use aircade_api::entities::games::{GameRecord, PlayerRecord};
use aircade_api::errors::AppError;
use aircade_api::services::game_service::{CodeSearch, GameService};
use aircade_api::services::player_service::{LeaveAction, PlayerService};

fn game(status: &str, max: u8) -> GameRecord {
    GameRecord {
        id: 5,
        code: "ABC234".to_string(),
        host_id: 1,
        status: status.to_string(),
        settings: Some(GameSettings::new(Some(max), None)),
    }
}

fn player(id: i32, user_id: i32, color: &str) -> PlayerRecord {
    PlayerRecord { id, game_id: 5, user_id, nickname: format!("p{id}"), color: color.to_string() }
}

#[test]
fn settings_are_clamped() {
    assert_eq!(GameSettings::new(None, None).max_players, 8);
    assert_eq!(GameSettings::new(Some(1), None).max_players, 2);
    assert_eq!(GameSettings::new(Some(200), None).max_players, 16);
    assert_eq!(GameSettings::new(None, None).game_type, "default");
    assert_eq!(GameSettings::default().max_players, 8);
    assert_eq!(GameSettings::default().game_type, "default");
}

#[test]
fn new_game_starts_in_lobby() {
    let g = GameService::new_game(
        3,
        "XYZ789".to_string(),
        CreateGameRequest { max_players: Some(4), game_type: Some("quiz".to_string()) },
    );
    assert_eq!(g.status, "lobby");
    assert_eq!(g.settings.max_players, 4);
    assert_eq!(g.settings.game_type, "quiz");
    assert_eq!(g.code, "XYZ789");
}

#[test]
fn code_search_gives_up_after_ten() {
    assert!(matches!(GameService::code_search_step(1, false), CodeSearch::Accept));
    assert!(matches!(GameService::code_search_step(9, true), CodeSearch::Retry));
    match GameService::code_search_step(10, true) {
        CodeSearch::GiveUp(AppError::Internal(m)) => {
            assert_eq!(m, "Failed to generate unique game code after multiple attempts")
        }
        _ => panic!("expected to give up"),
    }
}

#[test]
fn game_code_lookup() {
    assert_eq!(GameService::check_game_code(" abc234 "), Ok("ABC234".to_string()));
    assert_eq!(
        GameService::check_game_code("abc"),
        Err(AppError::InvalidGameCode("abc".to_string()))
    );
    assert_eq!(GameService::game_not_found(-4), AppError::GameNotFound("-4".to_string()));
}

#[test]
fn starting_a_game() {
    let g = game("lobby", 8);
    let ok = GameService::check_start(&g, 1, 2).unwrap();
    assert_eq!(ok.status, "playing");
    assert_eq!(ok.message, "Game started successfully");
    assert_eq!(
        GameService::check_start(&g, 2, 2).unwrap_err(),
        AppError::NotHost { action: "start the game".to_string() }
    );
    assert_eq!(
        GameService::check_start(&g, 1, 1).unwrap_err(),
        AppError::Validation("At least 2 players required to start the game".to_string())
    );
    assert_eq!(
        GameService::check_start(&game("PLAYING", 8), 1, 3).unwrap_err(),
        AppError::InvalidGameState { current: "PLAYING".to_string(), required: "lobby".to_string() }
    );
    let done = GameService::finished_response(5);
    assert_eq!(done.status, "finished");
    assert_eq!(done.message, "Game finished");
}

#[test]
fn joining_a_game() {
    let g = game("lobby", 3);
    let players = vec![player(1, 1, "#FF6B6B"), player(2, 2, "#45B7D1")];
    assert_eq!(PlayerService::check_join(&g, 9, "New", false, false, &players), Ok("#4ECDC4".to_string()));
    assert_eq!(
        PlayerService::check_join(&g, 9, "New", true, false, &players),
        Err(AppError::AlreadyInGame { user_id: 9, game_code: "ABC234".to_string() })
    );
    assert_eq!(
        PlayerService::check_join(&g, 9, "p1", false, true, &players),
        Err(AppError::NicknameTaken { nickname: "p1".to_string(), game_code: "ABC234".to_string() })
    );
    let full = vec![player(1, 1, "a"), player(2, 2, "b"), player(3, 3, "c")];
    assert_eq!(
        PlayerService::check_join(&g, 9, "New", false, false, &full),
        Err(AppError::GameFull { game_code: "ABC234".to_string(), max_players: 3 })
    );
    assert_eq!(
        PlayerService::check_join(&game("finished", 3), 9, "New", false, false, &players),
        Err(AppError::InvalidGameState { current: "finished".to_string(), required: "lobby".to_string() })
    );
    assert!(PlayerService::check_join(&game("bogus", 3), 9, "New", false, false, &players).is_err());
}

#[test]
fn player_tokens() {
    assert_eq!(PlayerService::player_token(5, -2, 255), "pt_5_-2_ff");
    assert_eq!(PlayerService::player_token(0, 0, 0), "pt_0_0_0");
    assert!(PlayerService::generate_player_token(5, 7).starts_with("pt_5_7_"));
}

#[test]
fn listing_marks_the_host() {
    let listed = PlayerService::list_players(vec![player(1, 1, "a"), player(2, 2, "b")], 1);
    assert_eq!(listed.len(), 2);
    assert!(listed[0].is_host);
    assert!(!listed[1].is_host);
    assert_eq!(listed[1].player.nickname, "p2");
}

#[test]
fn kicking_and_leaving() {
    let g = game("lobby", 8);
    assert_eq!(
        PlayerService::check_kick(&g, 5, 2, 2, Some(player(2, 2, "a"))).unwrap_err(),
        AppError::NotHost { action: "kick players".to_string() }
    );
    assert_eq!(
        PlayerService::check_kick(&g, 5, 2, 1, None).unwrap_err(),
        AppError::PlayerNotFound { player_id: 2, game_id: 5 }
    );
    assert_eq!(
        PlayerService::check_kick(&g, 5, 1, 1, Some(player(1, 1, "a"))).unwrap_err(),
        AppError::Validation("Cannot kick the host from the game".to_string())
    );
    let ok = PlayerService::check_kick(&g, 5, 2, 1, Some(player(2, 2, "a"))).unwrap();
    assert_eq!(ok.message, "Player 'p2' has been removed from the game");

    let (a, resp) = PlayerService::decide_leave(5, 1, Some(player(1, 1, "a")), Some(game("lobby", 8))).unwrap();
    assert_eq!(a, LeaveAction::EndGame);
    assert_eq!(resp.message, "Host left - game has been ended");
    let (a, resp) = PlayerService::decide_leave(5, 2, Some(player(2, 2, "a")), Some(game("lobby", 8))).unwrap();
    assert_eq!(a, LeaveAction::RemovePlayer(2));
    assert_eq!(resp.message, "You have left the game");
    assert_eq!(
        PlayerService::decide_leave(5, 2, None, None).unwrap_err(),
        AppError::PlayerNotFound { player_id: 0, game_id: 5 }
    );
    assert_eq!(
        PlayerService::decide_leave(5, 2, Some(player(2, 2, "a")), None).unwrap_err(),
        AppError::GameNotFound("5".to_string())
    );
}

#[test]
fn a_game_without_settings_admits_eight_players() {
    let mut g = game("lobby", 3);
    g.settings = None;
    assert_eq!(PlayerService::check_join(&g, 9, "New", false, false, &[]), Ok("#FF6B6B".to_string()));
    let seven: Vec<_> = (1..=7).map(|i| player(i, i, "x")).collect();
    assert!(PlayerService::check_join(&g, 9, "New", false, false, &seven).is_ok());
    let eight: Vec<_> = (1..=8).map(|i| player(i, i, "x")).collect();
    assert_eq!(
        PlayerService::check_join(&g, 9, "New", false, false, &eight),
        Err(AppError::GameFull { game_code: "ABC234".to_string(), max_players: 8 })
    );
}
