use aircade_api::auth::password::hash_password;
use aircade_api::routes::auth::{generate_verification_token, plan_password_reset};
use aircade_api::error::AppError;
use aircade_api::routes::users::{
    avatar_extension, avatar_names, check_avatar_extension, check_avatar_size, check_unique,
    plan_update_me, prepare_new_email, prepare_new_username, verify_account_ownership,
    UpdateMeRequest, MAX_AVATAR_SIZE,
};

#[test]
fn profile_updates() {
    let none = UpdateMeRequest { display_name: None, bio: None, avatar_url: None };
    assert_eq!(plan_update_me(&none), Ok(false));
    let some = UpdateMeRequest { display_name: Some("Neo".to_string()), bio: None, avatar_url: None };
    assert_eq!(plan_update_me(&some), Ok(true));
    let long_bio = UpdateMeRequest { display_name: None, bio: Some("b".repeat(501)), avatar_url: None };
    assert_eq!(
        plan_update_me(&long_bio),
        Err(AppError::BadRequest("Bio must be at most 500 characters.".to_string()))
    );
    let long_name = UpdateMeRequest {
        display_name: Some("n".repeat(101)),
        bio: Some("b".repeat(501)),
        avatar_url: None,
    };
    assert_eq!(
        plan_update_me(&long_name),
        Err(AppError::BadRequest("Display name must be at most 100 characters.".to_string()))
    );
}

#[test]
fn avatar_files() {
    assert_eq!(avatar_extension("Me.PNG"), "png");
    assert_eq!(avatar_extension("archive.tar.gz"), "gz");
    assert_eq!(avatar_extension("noext"), "noext");
    assert_eq!(avatar_extension("trailing."), "");
    assert!(check_avatar_extension("jpeg").is_ok());
    assert_eq!(
        check_avatar_extension("bmp"),
        Err(AppError::BadRequest("Unsupported file type. Allowed: PNG, JPG, GIF, SVG.".to_string()))
    );
    assert!(check_avatar_size(MAX_AVATAR_SIZE).is_ok());
    assert_eq!(
        check_avatar_size(MAX_AVATAR_SIZE + 1),
        Err(AppError::BadRequest("File exceeds the 5 MB size limit.".to_string()))
    );
    let (stored, url) = avatar_names(0xff, "png");
    assert_eq!(stored, "00000000-0000-0000-0000-0000000000ff.png");
    assert_eq!(url, "avatars/00000000-0000-0000-0000-0000000000ff.png");
}

#[test]
fn new_username_and_email() {
    assert_eq!(prepare_new_username("  new_name "), Ok("new_name".to_string()));
    assert_eq!(
        prepare_new_username(" no "),
        Err(AppError::BadRequest("Username must be at least 3 characters.".to_string()))
    );
    assert_eq!(prepare_new_email(" New@Mail.IO "), Ok("new@mail.io".to_string()));
    assert_eq!(
        prepare_new_email("broken"),
        Err(AppError::BadRequest("Invalid email format.".to_string()))
    );
    assert!(check_unique(None, 1, "taken").is_ok());
    assert!(check_unique(Some(1), 1, "taken").is_ok());
    assert_eq!(check_unique(Some(2), 1, "Username is already taken."), Err(AppError::Conflict("Username is already taken.".to_string())));
}

#[test]
fn ownership_proof() {
    let hash = hash_password("secret-pass").unwrap();
    assert!(verify_account_ownership(None, None).is_ok());
    assert!(verify_account_ownership(Some(Some(hash.clone())), Some("secret-pass")).is_ok());
    assert_eq!(
        verify_account_ownership(Some(Some(hash.clone())), Some("guess")),
        Err(AppError::Unauthorized("Password is incorrect.".to_string()))
    );
    assert_eq!(
        verify_account_ownership(Some(Some(hash)), None),
        Err(AppError::BadRequest("Password is required for email-linked accounts.".to_string()))
    );
    assert_eq!(
        verify_account_ownership(Some(None), Some("x")),
        Err(AppError::Internal("Email provider has no password hash".to_string()))
    );
    assert!(matches!(
        verify_account_ownership(Some(Some("garbage".to_string())), Some("x")),
        Err(AppError::Internal(_))
    ));
}

#[test]
fn password_reset_answer_is_uniform() {
    let answer = "If an account with that email exists, a reset link has been sent.";
    assert_eq!(plan_password_reset(true, true), (true, answer.to_string()));
    assert_eq!(plan_password_reset(true, false), (false, answer.to_string()));
    assert_eq!(plan_password_reset(false, false), (false, answer.to_string()));
}

#[test]
fn verification_tokens_are_uuid_texts() {
    let a = generate_verification_token();
    let b = generate_verification_token();
    assert_eq!(a.len(), 36);
    assert_eq!(a.as_bytes()[14], b'4');
    assert_ne!(a, b);
}
