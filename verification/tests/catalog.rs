use aircade_api::entities::game::CatalogGame;
use aircade_api::entities::user::UserRecord;
use aircade_api::error::AppError;
use aircade_api::routes::games::{
    asset_file_size, asset_storage_url, check_asset, check_delete, check_new_game,
    check_tags_found, check_visibility, default_limit, default_offset, draft_game, may_manage,
    plan_archive, plan_fork, check_publish, check_publisher, plan_publish, is_creator, shown_codes, plan_unarchive, plan_update, published,
    require_creator, UpdateGameRequest, VersionCode, MAX_ASSET_SIZE,
};
use aircade_api::routes::slug::unique_slug;

const OWNER: u128 = 0x1111_2222_3333_4444_5555_6666_7777_8888;
const OTHER: u128 = 0x9999_aaaa_bbbb_cccc_dddd_eeee_ffff_0000;
const GAME: u128 = 0x0123_4567_89ab_cdef_0123_4567_89ab_cdef;

fn user(id: u128, role: &str, verified: bool) -> UserRecord {
    UserRecord {
        id,
        email: "a@b.co".to_string(),
        username: "someone".to_string(),
        display_name: None,
        avatar_url: None,
        bio: None,
        email_verified: verified,
        role: role.to_string(),
        subscription_plan: "free".to_string(),
        account_status: "active".to_string(),
        suspension_reason: None,
        deleted: false,
    }
}

fn game() -> CatalogGame {
    draft_game(GAME, OWNER, "My Game!".to_string(), None, None, 1, 4)
}

fn no_changes() -> UpdateGameRequest {
    UpdateGameRequest {
        title: None,
        description: None,
        thumbnail_url: None,
        min_players: None,
        max_players: None,
        visibility: None,
        game_screen_code: None,
        controller_screen_code: None,
    }
}

#[test]
fn pagination_defaults() {
    assert_eq!(default_offset(), 0);
    assert_eq!(default_limit(), 20);
}

#[test]
fn slug_is_lowercase_words_and_id() {
    assert_eq!(
        unique_slug("Hello, World!  Again", GAME),
        "hello-world-again-01234567-89ab-cdef-0123-456789abcdef"
    );
    assert_eq!(unique_slug("***", GAME), "-01234567-89ab-cdef-0123-456789abcdef");
}

#[test]
fn new_draft_defaults() {
    let g = game();
    assert_eq!(g.status, "draft");
    assert_eq!(g.visibility, "private");
    assert_eq!(g.technology, "p5js");
    assert_eq!(g.slug, "my-game-01234567-89ab-cdef-0123-456789abcdef");
    assert!(g.published_version_id.is_none());
}

#[test]
fn new_game_checks() {
    assert_eq!(
        check_new_game("   ", None, None),
        Err(AppError::BadRequest("Title is required".to_string()))
    );
    assert_eq!(check_new_game("Pong", None, None), Ok((1, 4)));
    assert_eq!(check_new_game("Pong", Some(2), Some(2)), Ok((2, 2)));
    assert_eq!(
        check_new_game("Pong", Some(5), None),
        Err(AppError::BadRequest("maxPlayers must be >= minPlayers".to_string()))
    );
}

#[test]
fn private_games_are_hidden_from_others() {
    let g = game();
    assert!(check_visibility(&g, Some(OWNER)).is_ok());
    assert_eq!(
        check_visibility(&g, Some(OTHER)),
        Err(AppError::NotFound("Game not found".to_string()))
    );
    assert!(check_visibility(&g, None).is_err());
    let mut public = game();
    public.visibility = "unlisted".to_string();
    assert!(check_visibility(&public, None).is_ok());
}

#[test]
fn management_rights() {
    let g = game();
    assert!(require_creator(&g, OWNER).is_ok());
    assert_eq!(
        require_creator(&g, OTHER),
        Err(AppError::Forbidden("You are not the creator of this game".to_string()))
    );
    assert!(may_manage(&g, &user(OTHER, "moderator", true)));
    assert!(may_manage(&g, &user(OTHER, "admin", true)));
    assert!(!may_manage(&g, &user(OTHER, "user", true)));
    assert_eq!(
        check_delete(&g, &user(OTHER, "user", true)),
        Err(AppError::Forbidden("You are not authorized to delete this game".to_string()))
    );
}

#[test]
fn update_applies_fields_and_renews_slug() {
    let mut req = no_changes();
    req.title = Some("Space Race".to_string());
    req.max_players = Some(8);
    req.game_screen_code = Some("draw()".to_string());
    let g = plan_update(game(), OWNER, req).unwrap();
    assert_eq!(g.title, "Space Race");
    assert_eq!(g.slug, "space-race-01234567-89ab-cdef-0123-456789abcdef");
    assert_eq!(g.max_players, 8);
    assert_eq!(g.min_players, 1);
    assert_eq!(g.game_screen_code.as_deref(), Some("draw()"));
    assert_eq!(g.status, "draft");
}

#[test]
fn update_refusals() {
    assert_eq!(
        plan_update(game(), OTHER, no_changes()).unwrap_err(),
        AppError::Forbidden("You are not the creator of this game".to_string())
    );
    let mut req = no_changes();
    req.min_players = Some(6);
    assert_eq!(
        plan_update(game(), OWNER, req).unwrap_err(),
        AppError::BadRequest("maxPlayers must be >= minPlayers".to_string())
    );
    let mut req = no_changes();
    req.title = Some("  ".to_string());
    assert_eq!(
        plan_update(game(), OWNER, req).unwrap_err(),
        AppError::BadRequest("Title cannot be empty".to_string())
    );
}

#[test]
fn publish_rules() {
    let mut g = game();
    assert_eq!(
        plan_publish(&user(OWNER, "user", false), &g, 0),
        Err(AppError::Unprocessable(
            "EMAIL_NOT_VERIFIED".to_string(),
            "Email must be verified to publish games".to_string()
        ))
    );
    assert_eq!(
        plan_publish(&user(OTHER, "user", true), &g, 0),
        Err(AppError::Forbidden("You are not the creator of this game".to_string()))
    );
    assert_eq!(
        plan_publish(&user(OWNER, "user", true), &g, 0),
        Err(AppError::Unprocessable(
            "INVALID_GAME".to_string(),
            "Game must have at least one non-empty canvas code".to_string()
        ))
    );
    g.controller_screen_code = Some("  ".to_string());
    assert!(plan_publish(&user(OWNER, "user", true), &g, 0).is_err());
    g.game_screen_code = Some("setup()".to_string());
    assert_eq!(plan_publish(&user(OWNER, "user", true), &g, 2), Ok(3));
    let p = published(g, 77);
    assert_eq!(p.status, "published");
    assert_eq!(p.published_version_id, Some(77));
}

#[test]
fn archive_then_unarchive_restores_status() {
    let g = published(game(), 5);
    let archived = plan_archive(g.clone(), &user(OWNER, "user", true)).unwrap();
    assert_eq!(archived.status, "archived");
    assert_eq!(
        plan_archive(archived.clone(), &user(OWNER, "user", true)).unwrap_err(),
        AppError::Unprocessable("ALREADY_ARCHIVED".to_string(), "Game is already archived".to_string())
    );
    let restored = plan_unarchive(archived, OWNER).unwrap();
    assert_eq!(restored.status, g.status);
    let draft = plan_unarchive(plan_archive(game(), &user(OWNER, "admin", true)).unwrap(), OWNER).unwrap();
    assert_eq!(draft.status, "draft");
    assert_eq!(
        plan_unarchive(game(), OWNER).unwrap_err(),
        AppError::Unprocessable("NOT_ARCHIVED".to_string(), "Game is not currently archived".to_string())
    );
    assert_eq!(
        plan_archive(game(), &user(OTHER, "user", true)).unwrap_err(),
        AppError::Forbidden("You are not authorized to archive this game".to_string())
    );
}

#[test]
fn fork_copies_published_code() {
    let source = published(game(), 9);
    let version = VersionCode {
        game_screen_code: Some("screen".to_string()),
        controller_screen_code: None,
    };
    let f = plan_fork(&source, OTHER, OWNER, Some(version)).unwrap();
    assert_eq!(f.title, "My Game! (Fork)");
    assert_eq!(f.slug, "my-game-fork-11112222-3333-4444-5555-666677778888");
    assert_eq!(f.owner_id, OTHER);
    assert_eq!(f.forked_from_id, Some(GAME));
    assert_eq!(f.status, "draft");
    assert_eq!(f.game_screen_code.as_deref(), Some("screen"));
    assert_eq!(
        plan_fork(&game(), OTHER, OWNER, None).unwrap_err(),
        AppError::Unprocessable(
            "NO_PUBLISHED_VERSION".to_string(),
            "The source game has no published version".to_string()
        )
    );
    assert_eq!(
        plan_fork(&source, OTHER, OWNER, None).unwrap_err(),
        AppError::NotFound("Published version not found".to_string())
    );
}

#[test]
fn asset_checks() {
    assert_eq!(check_asset(0, "image/png"), Err(AppError::BadRequest("No file provided".to_string())));
    assert_eq!(
        check_asset(MAX_ASSET_SIZE + 1, "image/png"),
        Err(AppError::PayloadTooLarge("File exceeds the 10 MB size limit".to_string()))
    );
    assert!(check_asset(MAX_ASSET_SIZE, "font/woff2").is_ok());
    assert_eq!(
        check_asset(10, "text/html"),
        Err(AppError::BadRequest("Unsupported file type: text/html".to_string()))
    );
    assert_eq!(
        asset_storage_url(GAME, "logo.png"),
        "assets/01234567-89ab-cdef-0123-456789abcdef/logo.png"
    );
    assert_eq!(asset_file_size(1234), 1234);
    assert_eq!(asset_file_size(usize::MAX), i32::MAX);
    assert!(check_tags_found(3, 3).is_ok());
    assert_eq!(
        check_tags_found(2, 3),
        Err(AppError::BadRequest("One or more tag IDs do not exist".to_string()))
    );
}

#[test]
fn same_title_different_games_get_different_slugs() {
    assert_ne!(unique_slug("Pong", GAME), unique_slug("Pong", OWNER));
    assert_ne!(unique_slug("Pong", GAME), unique_slug("Pong-01234567", GAME ^ 1));
}

#[test]
fn canvas_code_is_shown_to_its_creator_only() {
    let mut g = game();
    g.game_screen_code = Some("screen()".to_string());
    assert!(is_creator(&g, Some(OWNER)));
    assert!(!is_creator(&g, Some(OTHER)));
    assert!(!is_creator(&g, None));
    assert_eq!(shown_codes(&g, true), (Some("screen()".to_string()), None));
    assert_eq!(shown_codes(&g, false), (None, None));
}

#[test]
fn publish_checks_the_email_before_the_game() {
    assert_eq!(
        check_publisher(&user(OWNER, "user", false)),
        Err(AppError::Unprocessable(
            "EMAIL_NOT_VERIFIED".to_string(),
            "Email must be verified to publish games".to_string()
        ))
    );
    assert_eq!(check_publisher(&user(OWNER, "user", true)), Ok(()));
    let mut g = game();
    g.game_screen_code = Some("setup()".to_string());
    assert_eq!(check_publish(&user(OWNER, "user", true), &g), Ok(()));
    assert_eq!(
        check_publish(&user(OTHER, "user", true), &g),
        Err(AppError::Forbidden("You are not the creator of this game".to_string()))
    );
}
