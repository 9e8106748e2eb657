//! Who a request comes from: the bearer token, its subject, and the account's standing.
use vstd::prelude::*;
use vstd::string::*;
use crate::auth::jwt::Claims;
use crate::entities::user::UserRecord;
use crate::error::AppError;
use crate::ids::{parse_uuid, parsed_uuid};
use crate::text::{str_eq, strip_prefix};

verus! {

/// Authenticated user extracted from the `Authorization: Bearer <token>` header.
#[derive(Debug, Clone)]
pub struct AuthUser(pub UserRecord);

/// An authenticated user with at least the `"moderator"` role.
#[derive(Debug, Clone)]
pub struct ModeratorUser(pub UserRecord);

/// An authenticated user with the `"admin"` role.
#[derive(Debug, Clone)]
pub struct AdminUser(pub UserRecord);

/// The token of an `Authorization` header value, or the 401 answer.
pub fn bearer_token(header: Option<&str>) -> (r: Result<&str, AppError>)
    ensures
        header is None ==> (r matches Err(AppError::Unauthorized(m)) && m@ == "Missing authorization header."@),
        header matches Some(h) ==> ((prefix_len_ok(h@) ==> (r matches Ok(t) && t@ == h@.skip(7)))
            && (!prefix_len_ok(h@) ==> (r matches Err(AppError::Unauthorized(m)) && m@
            == "Invalid authorization header format."@))),
{
    match header {
        None => Err(AppError::Unauthorized(String::from_str("Missing authorization header."))),
        Some(h) => {
            proof {
                reveal_strlit("Bearer ");
            }
            match strip_prefix(h, "Bearer ") {
                Some(t) => Ok(t),
                None => Err(AppError::Unauthorized(String::from_str("Invalid authorization header format."))),
            }
        },
    }
}

/// Whether `h` starts with `"Bearer "`.
pub open spec fn prefix_len_ok(h: Seq<char>) -> bool {
    7 <= h.len() && h.take(7) == "Bearer "@
}

/// The user a validated token speaks for, or the 401 answer when its subject is no UUID.
pub fn claims_subject(claims: &Claims) -> (r: Result<u128, AppError>)
    ensures
        parsed_uuid(claims.sub@) matches Some(u) ==> r == Ok::<u128, AppError>(u),
        parsed_uuid(claims.sub@) is None ==> (r matches Err(AppError::Unauthorized(m)) && m@
            == "Invalid token subject."@),
{
    match parse_uuid(claims.sub.as_str()) {
        Some(u) => Ok(u),
        None => Err(AppError::Unauthorized(String::from_str("Invalid token subject."))),
    }
}

/// The answer when an account may not act: deleted accounts look absent (401),
/// suspended (with the reason) and deactivated ones are refused (403).
pub open spec fn spec_account_refusal(u: UserRecord) -> Option<(u16, Seq<char>)> {
    if u.deleted {
        Some((401, "User not found."@))
    } else if u.account_status@ == "suspended"@ {
        Some((403, "Account is suspended: "@ + match u.suspension_reason {
            Some(r) => r@,
            None => "No reason provided"@,
        }))
    } else if u.account_status@ == "deactivated"@ {
        Some((403, "Account is deactivated."@))
    } else {
        None
    }
}

/// Status and message of an error of the kinds `check_account` gives.
pub open spec fn status_and_message(e: AppError) -> (u16, Seq<char>) {
    match e {
        AppError::Unauthorized(m) => (401, m@),
        AppError::Forbidden(m) => (403, m@),
        _ => (0, Seq::empty()),
    }
}

/// Accepts the account found for a token, or gives the answer that refuses it.
pub fn check_account(user: UserRecord) -> (r: Result<AuthUser, AppError>)
    ensures
        spec_account_refusal(user) is None ==> (r matches Ok(a) && a.0 == user),
        spec_account_refusal(user) matches Some(p) ==> (r matches Err(e) && status_and_message(e) == p
            && (e is Unauthorized || e is Forbidden)),
{
    if user.deleted {
        return Err(AppError::Unauthorized(String::from_str("User not found.")));
    }
    if str_eq(user.account_status.as_str(), "suspended") {
        let mut m = String::from_str("Account is suspended: ");
        match &user.suspension_reason {
            Some(reason) => m.append(reason.as_str()),
            None => m.append("No reason provided"),
        }
        return Err(AppError::Forbidden(m));
    }
    if str_eq(user.account_status.as_str(), "deactivated") {
        return Err(AppError::Forbidden(String::from_str("Account is deactivated.")));
    }
    Ok(AuthUser(user))
}

impl ModeratorUser {
    /// Requires the role `"moderator"` or `"admin"`.
    pub fn from_auth(user: AuthUser) -> (r: Result<ModeratorUser, AppError>)
        ensures
            (user.0.role@ == "moderator"@ || user.0.role@ == "admin"@) ==> (r matches Ok(m) && m.0 == user.0),
            !(user.0.role@ == "moderator"@ || user.0.role@ == "admin"@) ==> (r matches Err(
                AppError::Forbidden(m),
            ) && m@ == "Moderator or admin role required."@),
    {
        if !str_eq(user.0.role.as_str(), "moderator") && !str_eq(user.0.role.as_str(), "admin") {
            return Err(AppError::Forbidden(String::from_str("Moderator or admin role required.")));
        }
        Ok(ModeratorUser(user.0))
    }
}

impl AdminUser {
    /// Requires the role `"admin"`.
    pub fn from_auth(user: AuthUser) -> (r: Result<AdminUser, AppError>)
        ensures
            user.0.role@ == "admin"@ ==> (r matches Ok(m) && m.0 == user.0),
            user.0.role@ != "admin"@ ==> (r matches Err(AppError::Forbidden(m)) && m@
                == "Admin role required."@),
    {
        if !str_eq(user.0.role.as_str(), "admin") {
            return Err(AppError::Forbidden(String::from_str("Admin role required.")));
        }
        Ok(AdminUser(user.0))
    }
}

}
