use aircade_api::auth::extract_client_ip;
use aircade_api::auth::jwt::{
    accept_access_claims, accept_refresh_claims, generate_oauth_state_claims, generate_token_claims,
    oauth_state_claims_at, token_claims_at, Claims, JwtSettings, OAUTH_STATE_TTL_SECS,
};
use aircade_api::auth::middleware::{bearer_token, check_account, claims_subject, AdminUser, AuthUser, ModeratorUser};
use aircade_api::entities::user::UserRecord;
use aircade_api::error::AppError;
use aircade_api::ids::uuid_to_string;
use aircade_api::auth::password::hash_password;
use aircade_api::routes::auth::{
    decide_signin, new_refresh_record, refresh_token_id, revoke_refresh_record, RefreshRecord,
};

const ID: u128 = 0x550e8400_e29b_41d4_a716_446655440000;

fn user(role: &str, status: &str) -> UserRecord {
    UserRecord {
        id: ID,
        email: "a@b.co".to_string(),
        username: "someone".to_string(),
        display_name: None,
        avatar_url: None,
        bio: None,
        email_verified: true,
        role: role.to_string(),
        subscription_plan: "free".to_string(),
        account_status: status.to_string(),
        suspension_reason: None,
        deleted: false,
    }
}

fn settings() -> JwtSettings {
    JwtSettings { secret: "s".to_string(), access_expiration_secs: 900, refresh_expiration_secs: 604800 }
}

#[test]
fn uuid_text_round_trip() {
    assert_eq!(uuid_to_string(ID), "550e8400-e29b-41d4-a716-446655440000");
    assert_eq!(refresh_token_id("550e8400-e29b-41d4-a716-446655440000"), Ok(ID));
    assert!(refresh_token_id("not a uuid").is_err());
    let fresh = generate_token_claims(ID, "user", &settings()).refresh_jti;
    assert_eq!(refresh_token_id(&uuid_to_string(fresh)), Ok(fresh));
    assert_eq!((fresh >> 76) & 0xf, 4);
    assert_eq!((fresh >> 62) & 0x3, 2);
}

#[test]
fn token_pair_claims() {
    let pair = token_claims_at(ID, "admin", &settings(), 1_000, 1, 2);
    assert_eq!(pair.access.sub, "550e8400-e29b-41d4-a716-446655440000");
    assert_eq!(pair.access.role, "admin");
    assert_eq!(pair.access.token_type, "access");
    assert_eq!(pair.access.exp, 1_900);
    assert_eq!(pair.access.iat, 1_000);
    assert_eq!(pair.access.jti, "00000000-0000-0000-0000-000000000001");
    assert_eq!(pair.refresh.token_type, "refresh");
    assert_eq!(pair.refresh.exp, 1_000 + 604800);
    assert_eq!(pair.refresh_expires_at, pair.refresh.exp);
    assert_eq!(pair.refresh_jti, 2);
}

#[test]
fn fresh_token_pair_is_consistent() {
    let pair = generate_token_claims(ID, "user", &settings());
    assert_eq!(pair.access.iat, pair.refresh.iat);
    assert_eq!(pair.access.exp - pair.access.iat, 900);
    assert_eq!(pair.refresh.jti, uuid_to_string(pair.refresh_jti));
    assert_ne!(pair.access.jti, pair.refresh.jti);
}

#[test]
fn token_kind_checks() {
    let pair = token_claims_at(ID, "user", &settings(), 0, 1, 2);
    assert!(accept_access_claims(pair.access.clone()).is_ok());
    assert_eq!(accept_access_claims(pair.refresh.clone()).unwrap_err(), "Token is not an access token");
    assert!(accept_refresh_claims(pair.refresh).is_ok());
    assert_eq!(accept_refresh_claims(pair.access).unwrap_err(), "Token is not a refresh token");
}

#[test]
fn oauth_state_claims() {
    let c = oauth_state_claims_at(50, 3, Some("https://app/cb"));
    assert_eq!(c.csrf, "00000000-0000-0000-0000-000000000003");
    assert_eq!(c.redirect_uri.as_deref(), Some("https://app/cb"));
    assert_eq!(c.exp, 50 + 1800);
    let fresh = generate_oauth_state_claims(None);
    assert!(fresh.redirect_uri.is_none());
    assert_eq!(fresh.exp - fresh.iat, OAUTH_STATE_TTL_SECS);
}

#[test]
fn bearer_header_parsing() {
    assert_eq!(bearer_token(Some("Bearer abc.def")), Ok("abc.def"));
    assert_eq!(bearer_token(Some("Bearer ")), Ok(""));
    assert_eq!(
        bearer_token(Some("Basic abc")),
        Err(AppError::Unauthorized("Invalid authorization header format.".to_string()))
    );
    assert_eq!(
        bearer_token(None),
        Err(AppError::Unauthorized("Missing authorization header.".to_string()))
    );
}

#[test]
fn token_subject_must_be_uuid() {
    let mut claims: Claims = token_claims_at(ID, "user", &settings(), 0, 1, 2).access;
    assert_eq!(claims_subject(&claims), Ok(ID));
    claims.sub = "42".to_string();
    assert_eq!(
        claims_subject(&claims),
        Err(AppError::Unauthorized("Invalid token subject.".to_string()))
    );
}

#[test]
fn account_standing() {
    assert!(check_account(user("user", "active")).is_ok());
    let mut suspended = user("user", "suspended");
    assert_eq!(
        check_account(suspended.clone()).unwrap_err(),
        AppError::Forbidden("Account is suspended: No reason provided".to_string())
    );
    suspended.suspension_reason = Some("spam".to_string());
    assert_eq!(
        check_account(suspended).unwrap_err(),
        AppError::Forbidden("Account is suspended: spam".to_string())
    );
    assert_eq!(
        check_account(user("user", "deactivated")).unwrap_err(),
        AppError::Forbidden("Account is deactivated.".to_string())
    );
    let mut deleted = user("user", "active");
    deleted.deleted = true;
    assert_eq!(check_account(deleted).unwrap_err(), AppError::Unauthorized("User not found.".to_string()));
}

#[test]
fn role_guards() {
    assert!(ModeratorUser::from_auth(AuthUser(user("moderator", "active"))).is_ok());
    assert!(ModeratorUser::from_auth(AuthUser(user("admin", "active"))).is_ok());
    assert_eq!(
        ModeratorUser::from_auth(AuthUser(user("user", "active"))).unwrap_err(),
        AppError::Forbidden("Moderator or admin role required.".to_string())
    );
    assert!(AdminUser::from_auth(AuthUser(user("admin", "active"))).is_ok());
    assert_eq!(
        AdminUser::from_auth(AuthUser(user("moderator", "active"))).unwrap_err(),
        AppError::Forbidden("Admin role required.".to_string())
    );
}

#[test]
fn client_ip_sources() {
    assert_eq!(
        extract_client_ip(Some(" 1.2.3.4 , 5.6.7.8"), Some("9.9.9.9")),
        Some("1.2.3.4".to_string())
    );
    assert_eq!(extract_client_ip(None, Some("9.9.9.9")), Some("9.9.9.9".to_string()));
    assert_eq!(extract_client_ip(None, None), None);
    assert_eq!(extract_client_ip(Some("7.7.7.7"), None), Some("7.7.7.7".to_string()));
}

#[test]
fn signin_failures_share_one_answer() {
    let refusal = Err(AppError::Unauthorized("Invalid email or password.".to_string()));
    let hash = hash_password("correct horse").unwrap();
    let active = user("user", "active");
    assert_eq!(decide_signin(None, None, "correct horse"), refusal);
    assert_eq!(decide_signin(Some(&active), None, "correct horse"), refusal);
    assert_eq!(decide_signin(Some(&active), Some(None), "correct horse"), refusal);
    assert_eq!(decide_signin(Some(&active), Some(Some(hash.as_str())), "wrong horse"), refusal);
    assert_eq!(decide_signin(Some(&active), Some(Some(hash.as_str())), "correct horse"), Ok(()));
    assert_eq!(
        decide_signin(Some(&user("user", "suspended")), Some(Some(hash.as_str())), "correct horse"),
        Err(AppError::Forbidden("Account is suspended.".to_string()))
    );
    assert!(matches!(
        decide_signin(Some(&active), Some(Some("not a hash")), "correct horse"),
        Err(AppError::Internal(_))
    ));
}

#[test]
fn refresh_tokens_rotate() {
    let rec = RefreshRecord { id: 1, user_id: ID, revoked: false };
    let used = revoke_refresh_record(Some(rec)).unwrap();
    assert_eq!(used, RefreshRecord { id: 1, user_id: ID, revoked: true });
    assert_eq!(
        revoke_refresh_record(Some(used)),
        Err(AppError::Unauthorized("Refresh token has been revoked.".to_string()))
    );
    assert_eq!(
        revoke_refresh_record(None),
        Err(AppError::Unauthorized("Refresh token not found.".to_string()))
    );
    let fresh = new_refresh_record(2, ID);
    assert_eq!(fresh, RefreshRecord { id: 2, user_id: ID, revoked: false });
    assert!(revoke_refresh_record(Some(fresh)).is_ok());
}

#[test]
fn generated_ids_carry_the_v4_bits() {
    for _ in 0..200 {
        let jti = generate_token_claims(ID, "user", &settings()).refresh_jti;
        assert_eq!((jti >> 76) & 0xF, 4);
        assert_eq!((jti >> 62) & 0x3, 2);
        assert_eq!(uuid_to_string(jti).as_bytes()[14], b'4');
    }
}
