use aircade_api::entities::game_status::GameStatus;

#[test]
fn test_from_str() {
    assert_eq!(GameStatus::from_str("lobby"), Some(GameStatus::Lobby));
    assert_eq!(GameStatus::from_str("LOBBY"), Some(GameStatus::Lobby));
    assert_eq!(GameStatus::from_str("playing"), Some(GameStatus::Playing));
    assert_eq!(GameStatus::from_str("finished"), Some(GameStatus::Finished));
    assert_eq!(GameStatus::from_str("invalid"), None);
}

#[test]
fn test_as_str() {
    assert_eq!(GameStatus::Lobby.as_str(), "lobby");
    assert_eq!(GameStatus::Playing.as_str(), "playing");
    assert_eq!(GameStatus::Finished.as_str(), "finished");
}

#[test]
fn test_can_join() {
    assert!(GameStatus::Lobby.can_join());
    assert!(!GameStatus::Playing.can_join());
    assert!(!GameStatus::Finished.can_join());
}

#[test]
fn test_can_start() {
    assert!(GameStatus::Lobby.can_start());
    assert!(!GameStatus::Playing.can_start());
    assert!(!GameStatus::Finished.can_start());
}

#[test]
fn test_is_active() {
    assert!(GameStatus::Lobby.is_active());
    assert!(GameStatus::Playing.is_active());
    assert!(!GameStatus::Finished.is_active());
}

#[test]
fn test_default() {
    assert_eq!(GameStatus::default(), GameStatus::Lobby);
}

#[test]
fn status_text_round_trips() {
    for s in [GameStatus::Lobby, GameStatus::Playing, GameStatus::Finished] {
        assert_eq!(GameStatus::from_str(s.as_str()), Some(s));
    }
}

#[test]
fn status_parsing_ignores_ascii_case_only() {
    assert_eq!(GameStatus::from_str("PlAyInG"), Some(GameStatus::Playing));
    assert_eq!(GameStatus::from_str("Finished"), Some(GameStatus::Finished));
    assert_eq!(GameStatus::from_str(" lobby"), None);
    assert_eq!(GameStatus::from_str(""), None);
}
