//! Claims of the access, refresh and OAuth-state tokens, and the checks on decoded ones.
use vstd::prelude::*;
use vstd::string::*;
use crate::ids::{is_v4, new_uuid, spec_uuid_text, uuid_to_string};
use crate::random::now_timestamp;
use crate::text::str_eq;

verus! {

/// Bound on the Unix time the clock can read: `chrono`'s representable dates lie
/// within about 262 000 years of 1970.
pub const CLOCK_BOUND: i64 = 10_000_000_000_000;

/// JWT claims embedded in both access and refresh tokens.
#[derive(Debug, Clone)]
pub struct Claims {
    /// Subject: user ID as a UUID string.
    pub sub: String,
    /// User role: `"user"`, `"moderator"`, or `"admin"`.
    pub role: String,
    /// Token type: `"access"` or `"refresh"`.
    pub token_type: String,
    /// Expiration time (Unix timestamp).
    pub exp: i64,
    /// Issued-at time (Unix timestamp).
    pub iat: i64,
    /// Unique JWT identifier (used for refresh token tracking in the database).
    pub jti: String,
}

/// Claims for OAuth CSRF state tokens.
#[derive(Debug, Clone)]
pub struct OAuthStateClaims {
    pub csrf: String,
    pub redirect_uri: Option<String>,
    pub exp: i64,
    pub iat: i64,
}

/// Token lifetimes and signing secret.
#[derive(Debug, Clone)]
pub struct JwtSettings {
    pub secret: String,
    pub access_expiration_secs: u64,
    pub refresh_expiration_secs: u64,
}

/// The claims of a new access/refresh pair, before signing.
#[derive(Debug, Clone)]
pub struct TokenClaimsPair {
    pub access: Claims,
    pub refresh: Claims,
    /// The `jti` of the refresh token, used as its identifier in the database.
    pub refresh_jti: u128,
    /// Expiration of the refresh token (Unix timestamp).
    pub refresh_expires_at: i64,
}

/// The claims of one token of `kind` for `user_id`, issued at `now`, living `ttl` seconds.
pub open spec fn spec_claims(
    c: Claims,
    user_id: u128,
    role: Seq<char>,
    kind: Seq<char>,
    now: i64,
    ttl: u64,
    jti: u128,
) -> bool {
    &&& c.sub@ == spec_uuid_text(user_id)
    &&& c.role@ == role
    &&& c.token_type@ == kind
    &&& c.exp == now + (ttl as i64)
    &&& c.iat == now
    &&& c.jti@ == spec_uuid_text(jti)
}

/// Largest lifetime for which `now + ttl` cannot overflow for any clock reading.
pub open spec fn ttl_in_range(ttl: u64) -> bool {
    ttl <= i64::MAX - CLOCK_BOUND
}

/// Claims of an access/refresh pair issued at `now` with the given identifiers.
pub fn token_claims_at(
    user_id: u128,
    role: &str,
    settings: &JwtSettings,
    now: i64,
    access_jti: u128,
    refresh_jti: u128,
) -> (r: TokenClaimsPair)
    requires
        -CLOCK_BOUND <= now <= CLOCK_BOUND,
        ttl_in_range(settings.access_expiration_secs),
        ttl_in_range(settings.refresh_expiration_secs),
    ensures
        spec_claims(r.access, user_id, role@, "access"@, now, settings.access_expiration_secs, access_jti),
        spec_claims(r.refresh, user_id, role@, "refresh"@, now, settings.refresh_expiration_secs, refresh_jti),
        r.refresh_jti == refresh_jti,
        r.refresh_expires_at == r.refresh.exp,
{
    let access_exp = now + settings.access_expiration_secs as i64;
    let refresh_exp = now + settings.refresh_expiration_secs as i64;
    let access = Claims {
        sub: uuid_to_string(user_id),
        role: String::from_str(role),
        token_type: String::from_str("access"),
        exp: access_exp,
        iat: now,
        jti: uuid_to_string(access_jti),
    };
    let refresh = Claims {
        sub: uuid_to_string(user_id),
        role: String::from_str(role),
        token_type: String::from_str("refresh"),
        exp: refresh_exp,
        iat: now,
        jti: uuid_to_string(refresh_jti),
    };
    TokenClaimsPair { access, refresh, refresh_jti, refresh_expires_at: refresh_exp }
}

/// Claims of a new access/refresh pair for the given user, issued now, with fresh identifiers.
pub fn generate_token_claims(user_id: u128, role: &str, settings: &JwtSettings) -> (r:
    TokenClaimsPair)
    requires
        ttl_in_range(settings.access_expiration_secs),
        ttl_in_range(settings.refresh_expiration_secs),
    ensures
        exists|now: i64, access_jti: u128|
            is_v4(access_jti) && spec_claims(r.access, user_id, role@, "access"@, now, settings.access_expiration_secs, access_jti)
            && spec_claims(r.refresh, user_id, role@, "refresh"@, now, settings.refresh_expiration_secs, r.refresh_jti),
        is_v4(r.refresh_jti),
        r.refresh_expires_at == r.refresh.exp,
        r.access.iat == r.refresh.iat,
        r.access.exp == r.access.iat + settings.access_expiration_secs,
        r.refresh.exp == r.refresh.iat + settings.refresh_expiration_secs,
{
    let now = now_timestamp();
    let access_jti = new_uuid();
    let refresh_jti = new_uuid();
    token_claims_at(user_id, role, settings, now, access_jti, refresh_jti)
}

/// Accepts decoded claims as an access token, or says why not.
pub fn accept_access_claims(claims: Claims) -> (r: Result<Claims, String>)
    ensures
        claims.token_type@ == "access"@ ==> (r matches Ok(c) && c == claims),
        claims.token_type@ != "access"@ ==> (r matches Err(m) && m@ == "Token is not an access token"@),
{
    if !str_eq(claims.token_type.as_str(), "access") {
        return Err(String::from_str("Token is not an access token"));
    }
    Ok(claims)
}

/// Accepts decoded claims as a refresh token, or says why not.
pub fn accept_refresh_claims(claims: Claims) -> (r: Result<Claims, String>)
    ensures
        claims.token_type@ == "refresh"@ ==> (r matches Ok(c) && c == claims),
        claims.token_type@ != "refresh"@ ==> (r matches Err(m) && m@ == "Token is not a refresh token"@),
{
    if !str_eq(claims.token_type.as_str(), "refresh") {
        return Err(String::from_str("Token is not a refresh token"));
    }
    Ok(claims)
}

/// Lifetime of an OAuth state token: 30 minutes.
pub const OAUTH_STATE_TTL_SECS: i64 = 1800;

/// Claims of an OAuth state token issued at `now`.
pub fn oauth_state_claims_at(now: i64, csrf: u128, redirect_uri: Option<&str>) -> (r: OAuthStateClaims)
    requires
        -CLOCK_BOUND <= now <= CLOCK_BOUND,
    ensures
        r.csrf@ == spec_uuid_text(csrf),
        r.redirect_uri is Some <==> redirect_uri is Some,
        r.redirect_uri matches Some(u) ==> u@ == redirect_uri->0@,
        r.exp == now + OAUTH_STATE_TTL_SECS,
        r.iat == now,
{
    let redirect = match redirect_uri {
        Some(u) => Some(String::from_str(u)),
        None => None,
    };
    OAuthStateClaims { csrf: uuid_to_string(csrf), redirect_uri: redirect, exp: now + OAUTH_STATE_TTL_SECS, iat: now }
}

/// Claims of a new OAuth state token, issued now with a fresh CSRF value.
pub fn generate_oauth_state_claims(redirect_uri: Option<&str>) -> (r: OAuthStateClaims)
    ensures
        r.redirect_uri is Some <==> redirect_uri is Some,
        r.redirect_uri matches Some(u) ==> u@ == redirect_uri->0@,
        r.exp == r.iat + OAUTH_STATE_TTL_SECS,
        exists|csrf: u128| is_v4(csrf) && r.csrf@ == spec_uuid_text(csrf),
{
    let now = now_timestamp();
    let csrf = new_uuid();
    oauth_state_claims_at(now, csrf, redirect_uri)
}

}
