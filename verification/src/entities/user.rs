//! The account fields that authentication and the account rules read.
use vstd::prelude::*;

verus! {

/// An account as stored: identity, role and standing.
#[derive(Debug, Clone)]
pub struct UserRecord {
    pub id: u128,
    pub email: String,
    pub username: String,
    pub display_name: Option<String>,
    pub avatar_url: Option<String>,
    pub bio: Option<String>,
    pub email_verified: bool,
    /// `"user"`, `"moderator"` or `"admin"`.
    pub role: String,
    pub subscription_plan: String,
    /// `"active"`, `"suspended"` or `"deactivated"`.
    pub account_status: String,
    pub suspension_reason: Option<String>,
    /// Whether the account has been soft-deleted.
    pub deleted: bool,
}

}
