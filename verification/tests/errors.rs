use aircade_api::error::AppError as HttpError;
use aircade_api::errors::AppError;

#[test]
fn game_errors_answer_with_status_code_and_message() {
    let (status, body) = AppError::GameFull { game_code: "ABC234".to_string(), max_players: 8 }.to_response();
    assert_eq!(status, 409);
    assert_eq!(body.code, "GAME_FULL");
    assert_eq!(body.message, "Game 'ABC234' is full (8 players max)");
    assert!(body.details.is_none());

    let e = AppError::PlayerNotFound { player_id: -3, game_id: 12 };
    assert_eq!(e.status_code(), 404);
    assert_eq!(e.code(), "PLAYER_NOT_FOUND");
    assert_eq!(e.message(), "Player -3 not found in game 12");

    let e = AppError::NotHost { action: "start the game".to_string() };
    assert_eq!(e.status_code(), 403);
    assert_eq!(e.message(), "Only the host can start the game");
    assert_eq!(e.display(), "Only the host can perform: start the game");

    assert_eq!(AppError::InvalidPlayerToken.status_code(), 401);
    assert_eq!(AppError::InvalidPlayerToken.code(), "INVALID_PLAYER_TOKEN");
}

#[test]
fn every_game_error_kind_has_its_status() {
    let cases: Vec<(AppError, u16, &str)> = vec![
        (AppError::Database("x".to_string()), 500, "DATABASE_ERROR"),
        (AppError::Config("x".to_string()), 500, "CONFIG_ERROR"),
        (AppError::Validation("x".to_string()), 400, "VALIDATION_ERROR"),
        (AppError::NotFound("x".to_string()), 404, "NOT_FOUND"),
        (AppError::Internal("x".to_string()), 500, "INTERNAL_ERROR"),
        (AppError::GameNotFound("x".to_string()), 404, "GAME_NOT_FOUND"),
        (AppError::InvalidGameCode("x".to_string()), 400, "INVALID_GAME_CODE"),
        (
            AppError::InvalidGameState { current: "playing".to_string(), required: "lobby".to_string() },
            409,
            "INVALID_GAME_STATE",
        ),
        (
            AppError::NicknameTaken { nickname: "n".to_string(), game_code: "c".to_string() },
            409,
            "NICKNAME_TAKEN",
        ),
        (AppError::AlreadyInGame { user_id: 1, game_code: "c".to_string() }, 409, "ALREADY_IN_GAME"),
        (AppError::InvalidNickname("x".to_string()), 400, "INVALID_NICKNAME"),
    ];
    for (e, status, code) in cases {
        assert_eq!(e.status_code(), status);
        assert_eq!(e.code(), code);
    }
}

#[test]
fn game_error_texts() {
    assert_eq!(AppError::GameNotFound("ABC".to_string()).message(), "Game with code 'ABC' not found");
    assert_eq!(AppError::GameNotFound("ABC".to_string()).display(), "Game not found: ABC");
    assert_eq!(
        AppError::InvalidGameState { current: "playing".to_string(), required: "lobby".to_string() }.message(),
        "Game is in 'playing' state, but 'lobby' is required"
    );
    assert_eq!(
        AppError::NicknameTaken { nickname: "Ace".to_string(), game_code: "XYZ".to_string() }.display(),
        "Nickname 'Ace' already taken in game 'XYZ'"
    );
    assert_eq!(AppError::Database("down".to_string()).display(), "Database error: down");
    assert_eq!(
        AppError::GameFull { game_code: "G".to_string(), max_players: 16 }.display(),
        "Game 'G' is full (max 16 players)"
    );
}

#[test]
fn http_errors_answer_with_status_code_and_message() {
    assert_eq!(
        HttpError::BadRequest("bad".to_string()).response_parts(),
        (400, "BAD_REQUEST".to_string(), "bad".to_string())
    );
    assert_eq!(
        HttpError::Unprocessable("EMAIL_NOT_VERIFIED".to_string(), "verify".to_string()).response_parts(),
        (422, "EMAIL_NOT_VERIFIED".to_string(), "verify".to_string())
    );
    assert_eq!(
        HttpError::UnprocessableEntity("v".to_string()).response_parts(),
        (422, "VALIDATION_ERROR".to_string(), "v".to_string())
    );
    assert_eq!(
        HttpError::PayloadTooLarge("big".to_string()).response_parts().0,
        413
    );
    assert_eq!(HttpError::Conflict("c".to_string()).response_parts().1, "CONFLICT");
    assert_eq!(HttpError::Forbidden("f".to_string()).response_parts().0, 403);
    assert_eq!(HttpError::Unauthorized("u".to_string()).response_parts().0, 401);
    assert_eq!(HttpError::NotFound("n".to_string()).response_parts().1, "NOT_FOUND");
}

#[test]
fn internal_error_details_are_not_sent() {
    assert_eq!(
        HttpError::Internal("connection refused to db at 10.0.0.1".to_string()).response_parts(),
        (500, "INTERNAL_ERROR".to_string(), "An internal error occurred".to_string())
    );
}
