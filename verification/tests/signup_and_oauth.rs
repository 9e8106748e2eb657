use aircade_api::auth::oauth::{
    check_oauth_email_free, github_email_source, github_user_params, google_user_params,
    oauth_new_user, primary_verified_email, GitHubEmail, GitHubEmailSource, GitHubUserInfo,
    GoogleUserInfo,
};
use aircade_api::entities::user::UserRecord;
use aircade_api::error::AppError;
use aircade_api::routes::auth::{
    check_link, check_link_provider_name, check_password, check_refresh_record, check_signup_conflicts, new_password_hash, refresh_token_id, check_oauth_configured, check_resend,
    check_reset_expiry, check_signin_status, check_signup, check_verification_expiry,
    generate_username_from_name, normalize_email, oauth_redirect_url, plan_unlink,
    username_from_name, SignupEmailRequest,
};

fn signup(email: &str, username: &str, password: &str) -> SignupEmailRequest {
    SignupEmailRequest {
        email: email.to_string(),
        username: username.to_string(),
        password: password.to_string(),
    }
}

#[test]
fn emails_are_stored_trimmed_and_lowercase() {
    assert_eq!(normalize_email("  Alice@Example.COM "), "alice@example.com");
}

#[test]
fn signup_checks_in_order() {
    assert_eq!(
        check_signup(&signup(" Bob@Mail.org ", " bob_1 ", "password1")),
        Ok(("bob@mail.org".to_string(), "bob_1".to_string()))
    );
    assert_eq!(
        check_signup(&signup("nope", "x", "short")),
        Err(AppError::BadRequest("Invalid email format.".to_string()))
    );
    assert_eq!(
        check_signup(&signup("a@b.co", "x", "short")),
        Err(AppError::BadRequest("Username must be at least 3 characters.".to_string()))
    );
    assert_eq!(
        check_signup(&signup("a@b.co", "xyz", "short")),
        Err(AppError::BadRequest("Password must be at least 8 characters.".to_string()))
    );
}

fn account(status: &str) -> UserRecord {
    UserRecord {
        id: 1,
        email: "a@b.co".to_string(),
        username: "abc".to_string(),
        display_name: None,
        avatar_url: None,
        bio: None,
        email_verified: false,
        role: "user".to_string(),
        subscription_plan: "free".to_string(),
        account_status: status.to_string(),
        suspension_reason: None,
        deleted: false,
    }
}

#[test]
fn signin_refuses_suspended_and_deactivated() {
    assert!(check_signin_status(&account("active")).is_ok());
    assert_eq!(
        check_signin_status(&account("suspended")),
        Err(AppError::Forbidden("Account is suspended.".to_string()))
    );
    assert_eq!(
        check_signin_status(&account("deactivated")),
        Err(AppError::Forbidden("Account is deactivated.".to_string()))
    );
}

#[test]
fn generated_usernames() {
    assert_eq!(username_from_name("Jane Doe!", 42), "JaneDoe_42");
    assert_eq!(username_from_name("Jo", 7), "user_7");
    assert_eq!(username_from_name("élan vital", 65535), "élanvital_5535");
    let long = "a".repeat(60);
    assert_eq!(username_from_name(&long, 10000), format!("{}_0", "a".repeat(40)));
    let g = generate_username_from_name("Player One");
    assert!(g.starts_with("PlayerOne_"));
    let suffix: u32 = g["PlayerOne_".len()..].parse().unwrap();
    assert!(suffix < 10000);
}

#[test]
fn redirect_url_encodes_tokens() {
    assert_eq!(
        oauth_redirect_url("https://app/cb", "google", "a.b-c", "r/t", "{\"id\":1}"),
        "https://app/cb?provider=google&token=a.b-c&refreshToken=r%2Ft&user=%7B%22id%22%3A1%7D"
    );
    assert_eq!(
        oauth_redirect_url("x", "github", "é ~", "", ""),
        "x?provider=github&token=%C3%A9%20~&refreshToken=&user="
    );
}

#[test]
fn oauth_configuration_and_providers() {
    assert!(check_oauth_configured("id", "Google").is_ok());
    assert_eq!(
        check_oauth_configured("", "GitHub"),
        Err(AppError::UnprocessableEntity("GitHub OAuth is not configured.".to_string()))
    );
    assert!(check_link_provider_name("google").is_ok());
    assert!(check_link_provider_name("github").is_ok());
    assert_eq!(
        check_link_provider_name("gitlab"),
        Err(AppError::BadRequest("Unsupported provider: gitlab".to_string()))
    );
}

#[test]
fn linking_rules() {
    assert!(check_link(None, 5, false, "google").is_ok());
    assert_eq!(
        check_link(Some(5), 5, false, "google"),
        Err(AppError::Conflict("This provider is already linked to your account.".to_string()))
    );
    assert_eq!(
        check_link(Some(6), 5, false, "google"),
        Err(AppError::Conflict("This provider account is linked to a different user.".to_string()))
    );
    assert_eq!(
        check_link(None, 5, true, "github"),
        Err(AppError::Conflict("github is already linked to your account.".to_string()))
    );
}

#[test]
fn unlinking_rules() {
    let one = vec!["email".to_string()];
    assert_eq!(
        plan_unlink(&one, "email"),
        Err(AppError::UnprocessableEntity("Cannot unlink the last remaining auth provider.".to_string()))
    );
    let several = vec!["email".to_string(), "google".to_string(), "google".to_string()];
    assert_eq!(plan_unlink(&several, "google"), Ok(1));
    assert_eq!(
        plan_unlink(&several, "github"),
        Err(AppError::NotFound("This provider is not linked to your account.".to_string()))
    );
}

#[test]
fn token_lifetimes() {
    assert!(check_refresh_record(Some(false)).is_ok());
    assert_eq!(
        check_refresh_record(Some(true)),
        Err(AppError::Unauthorized("Refresh token has been revoked.".to_string()))
    );
    assert_eq!(
        check_refresh_record(None),
        Err(AppError::Unauthorized("Refresh token not found.".to_string()))
    );
    assert_eq!(refresh_token_id("00000000-0000-0000-0000-00000000002a"), Ok(42));
    assert_eq!(
        refresh_token_id("nope"),
        Err(AppError::Unauthorized("Invalid refresh token.".to_string()))
    );
    assert!(check_verification_expiry(None, 100).is_ok());
    assert!(check_verification_expiry(Some(100), 100).is_ok());
    assert_eq!(
        check_verification_expiry(Some(99), 100),
        Err(AppError::BadRequest("Verification token has expired.".to_string()))
    );
    assert_eq!(
        check_reset_expiry(None, 100),
        Err(AppError::BadRequest("Invalid or expired reset token.".to_string()))
    );
    assert_eq!(
        check_reset_expiry(Some(1), 100),
        Err(AppError::BadRequest("Reset token has expired.".to_string()))
    );
    assert!(check_reset_expiry(Some(100), 100).is_ok());
    assert!(check_resend(false).is_ok());
    assert_eq!(
        check_resend(true),
        Err(AppError::UnprocessableEntity("Email is already verified.".to_string()))
    );
}

#[test]
fn github_primary_email() {
    let emails = vec![
        GitHubEmail { email: "old@x.io".to_string(), primary: false, verified: true },
        GitHubEmail { email: "main@x.io".to_string(), primary: true, verified: false },
        GitHubEmail { email: "good@x.io".to_string(), primary: true, verified: true },
        GitHubEmail { email: "late@x.io".to_string(), primary: true, verified: true },
    ];
    assert_eq!(primary_verified_email(&emails), Ok("good@x.io".to_string()));
    assert_eq!(
        primary_verified_email(&emails[..2].to_vec()),
        Err(AppError::Internal("No primary verified email found on GitHub account".to_string()))
    );
}

#[test]
fn provider_profiles() {
    let g = google_user_params(GoogleUserInfo {
        sub: "g-1".to_string(),
        email: "g@x.io".to_string(),
        email_verified: None,
        name: Some("Gee".to_string()),
        picture: None,
    });
    assert_eq!(g.provider_name, "google");
    assert_eq!(g.provider_id, "g-1");
    assert!(g.email_verified);
    let info = GitHubUserInfo {
        id: -77,
        login: "octo".to_string(),
        email: None,
        name: None,
        avatar_url: Some("pic".to_string()),
    };
    assert!(matches!(github_email_source(&info), GitHubEmailSource::Lookup));
    let h = github_user_params(info, "o@x.io".to_string());
    assert_eq!(h.provider_name, "github");
    assert_eq!(h.provider_id, "-77");
    assert_eq!(h.avatar_url.as_deref(), Some("pic"));
    assert!(check_oauth_email_free(false).is_ok());
    assert_eq!(
        check_oauth_email_free(true),
        Err(AppError::Conflict("Email is already registered via a different provider.".to_string()))
    );
    let u = oauth_new_user(&h);
    assert!(u.username.starts_with("user_"));
    assert_eq!(u.role, "user");
    assert_eq!(u.subscription_plan, "free");
    assert_eq!(u.account_status, "active");
    assert_eq!(u.email, "o@x.io");
}

#[test]
fn signup_conflicts_and_passwords() {
    assert!(check_signup_conflicts(false, false).is_ok());
    assert_eq!(
        check_signup_conflicts(true, true),
        Err(AppError::Conflict("Email already registered.".to_string()))
    );
    assert_eq!(
        check_signup_conflicts(false, true),
        Err(AppError::Conflict("Username already taken.".to_string()))
    );
    let hash = new_password_hash("a long password").unwrap();
    assert!(check_password(Some(&hash), "a long password", "Invalid email or password.").is_ok());
    assert_eq!(
        check_password(Some(&hash), "other password", "Invalid email or password."),
        Err(AppError::Unauthorized("Invalid email or password.".to_string()))
    );
    assert_eq!(
        check_password(None, "x", "Current password is incorrect."),
        Err(AppError::Unauthorized("Current password is incorrect.".to_string()))
    );
    assert!(matches!(check_password(Some("junk"), "x", "no"), Err(AppError::Internal(_))));
    assert_eq!(
        new_password_hash("short"),
        Err(AppError::BadRequest("Password must be at least 8 characters.".to_string()))
    );
}

#[test]
fn valid_passwords_are_always_hashed() {
    for pw in ["12345678", "éééééééé", &"x".repeat(128)] {
        let h = new_password_hash(pw).unwrap();
        assert!(h.starts_with("$argon2id$"));
    }
}
