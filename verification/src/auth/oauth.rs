//! OAuth provider profiles and what a sign-in through Google or GitHub makes of them.
use vstd::prelude::*;
use vstd::string::*;
use crate::entities::user::UserRecord;
use crate::error::AppError;
use crate::ids::{is_v4, new_uuid};
use crate::routes::auth::{generate_username_from_name, spec_generated_username};
use crate::text::{append_signed_decimal, spec_signed_decimal};

verus! {

/// Google user info returned from the userinfo endpoint.
#[derive(Debug, Clone)]
pub struct GoogleUserInfo {
    pub sub: String,
    pub email: String,
    pub email_verified: Option<bool>,
    pub name: Option<String>,
    pub picture: Option<String>,
}

/// GitHub user info returned from the GitHub API.
#[derive(Debug, Clone)]
pub struct GitHubUserInfo {
    pub id: i64,
    pub login: String,
    pub email: Option<String>,
    pub name: Option<String>,
    pub avatar_url: Option<String>,
}

/// GitHub email info from the `/user/emails` endpoint.
#[derive(Debug, Clone)]
pub struct GitHubEmail {
    pub email: String,
    pub primary: bool,
    pub verified: bool,
}

/// What a provider tells about the person signing in.
#[derive(Debug, Clone)]
pub struct OAuthUserParams {
    pub provider_name: String,
    pub provider_id: String,
    pub email: String,
    pub email_verified: bool,
    pub display_name: Option<String>,
    pub avatar_url: Option<String>,
}

/// Whether `e` is a primary, verified address.
pub open spec fn is_primary_verified(e: GitHubEmail) -> bool {
    e.primary && e.verified
}

/// The first primary verified address of a GitHub account.
pub fn primary_verified_email(emails: &Vec<GitHubEmail>) -> (r: Result<String, AppError>)
    ensures
        r matches Ok(m) ==> exists|i: int|
            0 <= i < emails@.len() && is_primary_verified(emails@[i]) && m == emails@[i].email && forall|
                j: int,
            | 0 <= j < i ==> !is_primary_verified(#[trigger] emails@[j]),
        r is Ok <==> exists|i: int| 0 <= i < emails@.len() && is_primary_verified(#[trigger] emails@[i]),
        r matches Err(e) ==> (e matches AppError::Internal(m) && m@
            == "No primary verified email found on GitHub account"@),
{
    let mut i: usize = 0;
    while i < emails.len()
        invariant
            i <= emails@.len(),
            forall|j: int| 0 <= j < i ==> !is_primary_verified(#[trigger] emails@[j]),
        decreases emails@.len() - i,
    {
        if emails[i].primary && emails[i].verified {
            return Ok(emails[i].email.clone());
        }
        i = i + 1;
    }
    Err(AppError::Internal(String::from_str("No primary verified email found on GitHub account")))
}

/// The sign-in parameters of a Google profile: an unstated verification counts as
/// verified.
pub fn google_user_params(info: GoogleUserInfo) -> (r: OAuthUserParams)
    ensures
        r.provider_name@ == "google"@,
        r.provider_id == info.sub,
        r.email == info.email,
        r.email_verified == match info.email_verified {
            Some(v) => v,
            None => true,
        },
        r.display_name == info.name,
        r.avatar_url == info.picture,
{
    let email_verified = match info.email_verified {
        Some(v) => v,
        None => true,
    };
    OAuthUserParams {
        provider_name: String::from_str("google"),
        provider_id: info.sub,
        email: info.email,
        email_verified,
        display_name: info.name,
        avatar_url: info.picture,
    }
}

/// Where the email of a GitHub sign-in comes from.
#[derive(Debug, Clone)]
pub enum GitHubEmailSource {
    /// The public profile shows it.
    Profile(String),
    /// It has to be looked up among the account's addresses.
    Lookup,
}

/// The email of a GitHub profile, or the need to look it up.
pub fn github_email_source(info: &GitHubUserInfo) -> (r: GitHubEmailSource)
    ensures
        info.email matches Some(e) ==> (r matches GitHubEmailSource::Profile(x) && x == e),
        info.email is None ==> r is Lookup,
{
    match &info.email {
        Some(e) => GitHubEmailSource::Profile(e.clone()),
        None => GitHubEmailSource::Lookup,
    }
}

/// The sign-in parameters of a GitHub profile: the id in decimal, the email as found,
/// counted as verified.
pub fn github_user_params(info: GitHubUserInfo, email: String) -> (r: OAuthUserParams)
    ensures
        r.provider_name@ == "github"@,
        r.provider_id@ == spec_signed_decimal(info.id as int),
        r.email == email,
        r.email_verified,
        r.display_name == info.name,
        r.avatar_url == info.avatar_url,
{
    let mut provider_id = String::new();
    append_signed_decimal(&mut provider_id, info.id);
    OAuthUserParams {
        provider_name: String::from_str("github"),
        provider_id,
        email,
        email_verified: true,
        display_name: info.name,
        avatar_url: info.avatar_url,
    }
}

/// A new account cannot take an email that another account already has.
pub fn check_oauth_email_free(email_taken: bool) -> (r: Result<(), AppError>)
    ensures
        r is Ok <==> !email_taken,
        r matches Err(e) ==> (e matches AppError::Conflict(m) && m@
            == "Email is already registered via a different provider."@),
{
    if email_taken {
        return Err(AppError::Conflict(String::from_str("Email is already registered via a different provider.")));
    }
    Ok(())
}

/// The text a new account's username is generated from: the display name, or `user`.
pub open spec fn username_source(display_name: Option<String>) -> Seq<char> {
    match display_name {
        Some(n) => n@,
        None => "user"@,
    }
}

/// The account made for a first OAuth sign-in: a fresh id, a username generated from the
/// display name (or from `user`), an ordinary active free account.
pub fn oauth_new_user(params: &OAuthUserParams) -> (r: UserRecord)
    ensures
        is_v4(r.id),
        r.email == params.email,
        exists|suffix: u16|
            r.username@ == #[trigger] spec_generated_username(username_source(params.display_name), suffix),
        r.display_name == params.display_name,
        r.avatar_url == params.avatar_url,
        r.bio is None,
        r.email_verified == params.email_verified,
        r.role@ == "user"@,
        r.subscription_plan@ == "free"@,
        r.account_status@ == "active"@,
        r.suspension_reason is None,
        !r.deleted,
{
    let username = match &params.display_name {
        Some(n) => {
            let u = generate_username_from_name(n.as_str());
            assert(username_source(params.display_name) == n@);
            u
        },
        None => {
            let u = generate_username_from_name("user");
            assert(username_source(params.display_name) == "user"@);
            u
        },
    };
    let ghost source = username_source(params.display_name);
    assert(exists|suffix: u16| username@ == #[trigger] spec_generated_username(source, suffix));
    UserRecord {
        id: new_uuid(),
        email: params.email.clone(),
        username,
        display_name: params.display_name.clone(),
        avatar_url: params.avatar_url.clone(),
        bio: None,
        email_verified: params.email_verified,
        role: String::from_str("user"),
        subscription_plan: String::from_str("free"),
        account_status: String::from_str("active"),
        suspension_reason: None,
        deleted: false,
    }
}

}
