//! Request bodies and the decisions of the sign-up, sign-in, token and OAuth endpoints.
use vstd::prelude::*;
use vstd::string::*;
use vstd::utf8::encode_utf8;
use crate::auth::password::{argon2_check, hash_password, verify_password, spec_email_problem, spec_password_problem, spec_username_problem,
    validate_email, validate_password, validate_username};
use crate::entities::user::UserRecord;
use crate::ids::{is_v4, new_uuid, parse_uuid, parsed_uuid, spec_uuid_text, uuid_to_string};
use crate::error::AppError;
use crate::random::random_u16;
use crate::text::{append_decimal, byte_len, chars_of, is_alphanumeric, spec_decimal, spec_trim,
    str_eq, string_from_chars, to_lowercase, trim, unicode_alphanumeric, unicode_lowercase};

verus! {

/// `POST /auth/signup/email` body.
#[derive(Debug, Clone)]
pub struct SignupEmailRequest {
    pub email: String,
    pub username: String,
    pub password: String,
}

/// `POST /auth/signin/email` body.
#[derive(Debug, Clone)]
pub struct SigninEmailRequest {
    pub email: String,
    pub password: String,
}

/// `POST /auth/verify-email` body.
#[derive(Debug, Clone)]
pub struct VerifyEmailRequest {
    pub token: String,
}

/// `POST /auth/password-reset/request` body.
#[derive(Debug, Clone)]
pub struct PasswordResetRequestBody {
    pub email: String,
}

/// `POST /auth/password-reset/confirm` body.
#[derive(Debug, Clone)]
pub struct PasswordResetConfirmBody {
    pub token: String,
    pub new_password: String,
}

/// `POST /auth/password/change` body.
#[derive(Debug, Clone)]
pub struct PasswordChangeBody {
    pub current_password: String,
    pub new_password: String,
}

/// `POST /auth/refresh` body.
#[derive(Debug, Clone)]
pub struct RefreshRequestBody {
    pub refresh_token: String,
}

/// `POST /auth/refresh` answer.
#[derive(Debug, Clone)]
pub struct RefreshResponse {
    pub token: String,
    pub refresh_token: String,
}

/// `POST /auth/signout` body.
#[derive(Debug, Clone)]
pub struct SignoutRequestBody {
    pub refresh_token: String,
}

/// `POST /auth/link/{provider}` body.
#[derive(Debug, Clone)]
pub struct LinkProviderRequest {
    pub code: String,
}

/// `POST /auth/link/{provider}` answer.
#[derive(Debug, Clone)]
pub struct LinkProviderResponse {
    pub provider: String,
    pub provider_email: Option<String>,
    pub linked_at: String,
}

/// Query of the OAuth initiation endpoints.
#[derive(Debug, Clone)]
pub struct OAuthInitiateQuery {
    pub redirect_uri: Option<String>,
}

/// Query of the OAuth callback endpoints.
#[derive(Debug, Clone)]
pub struct OAuthCallbackQuery {
    pub code: String,
    pub state: String,
}

/// A plain message answer.
#[derive(Debug, Clone)]
pub struct MessageResponse {
    pub message: String,
}

/// Lifetime of an email verification token: 24 hours.
pub const VERIFICATION_TOKEN_TTL_SECS: i64 = 86400;

/// Lifetime of a password reset token: 1 hour.
pub const RESET_TOKEN_TTL_SECS: i64 = 3600;

/// An email as stored: trimmed and lower-cased.
pub fn normalize_email(raw: &str) -> (r: String)
    ensures
        r@ == unicode_lowercase(spec_trim(raw@)),
{
    to_lowercase(trim(raw))
}

/// Checks a sign-up: the normalized email, the trimmed username and the password, in
/// that order. Gives the email and username to store.
pub fn check_signup(req: &SignupEmailRequest) -> (r: Result<(String, String), AppError>)
    ensures
        ({
            let email = unicode_lowercase(spec_trim(req.email@));
            let username = spec_trim(req.username@);
            let problem = match spec_email_problem(email) {
                Some(p) => Some(p),
                None => match spec_username_problem(username) {
                    Some(p) => Some(p),
                    None => spec_password_problem(req.password@),
                },
            };
            &&& problem is None ==> (r matches Ok((e, u)) && e@ == email && u@ == username)
            &&& problem matches Some(p) ==> (r matches Err(AppError::BadRequest(m)) && m@ == p)
        }),
{
    let email = normalize_email(req.email.as_str());
    let username = trim(req.username.as_str());
    match validate_email(email.as_str()) {
        Ok(()) => {},
        Err(m) => return Err(AppError::BadRequest(m)),
    }
    match validate_username(username) {
        Ok(()) => {},
        Err(m) => return Err(AppError::BadRequest(m)),
    }
    match validate_password(req.password.as_str()) {
        Ok(()) => {},
        Err(m) => return Err(AppError::BadRequest(m)),
    }
    Ok((email, String::from_str(username)))
}

/// Refuses sign-in to suspended and deactivated accounts.
pub fn check_signin_status(user: &UserRecord) -> (r: Result<(), AppError>)
    ensures
        user.account_status@ == "suspended"@ ==> (r matches Err(AppError::Forbidden(m)) && m@
            == "Account is suspended."@),
        user.account_status@ == "deactivated"@ ==> (r matches Err(AppError::Forbidden(m)) && m@
            == "Account is deactivated."@),
        r is Ok <==> (user.account_status@ != "suspended"@ && user.account_status@ != "deactivated"@),
{
    proof {
        reveal_strlit("suspended");
        reveal_strlit("deactivated");
        assert("suspended"@.len() != "deactivated"@.len());
    }
    if str_eq(user.account_status.as_str(), "suspended") {
        return Err(AppError::Forbidden(String::from_str("Account is suspended.")));
    }
    if str_eq(user.account_status.as_str(), "deactivated") {
        return Err(AppError::Forbidden(String::from_str("Account is deactivated.")));
    }
    Ok(())
}

/// The answer to every sign-in that fails on the email or the password.
pub open spec fn signin_refusal() -> Seq<char> {
    "Invalid email or password."@
}

/// Whether an account may sign in: it is neither suspended nor deactivated.
pub open spec fn may_sign_in(user: UserRecord) -> bool {
    user.account_status@ != "suspended"@ && user.account_status@ != "deactivated"@
}

/// Whether a found account may sign in: there is one, neither suspended nor deactivated.
pub open spec fn account_open(user: Option<UserRecord>) -> bool {
    user matches Some(u) && may_sign_in(u)
}

/// What checking the password against the stored hash gives: `None` when there is no
/// email sign-in or no stored hash, else `argon2_check`'s outcome.
pub open spec fn password_verdict(stored_hash: Option<Option<Seq<char>>>, password: Seq<char>) -> Option<
    Option<bool>,
> {
    match stored_hash {
        Some(Some(h)) => Some(argon2_check(password, h)),
        _ => None,
    }
}

/// The sign-in fails on the email or the password: no live account has the email, the
/// account has no email sign-in or no stored hash, or the password does not match it.
pub open spec fn wrong_credentials(
    user: Option<UserRecord>,
    stored_hash: Option<Option<Seq<char>>>,
    password: Seq<char>,
) -> bool {
    ||| user is None
    ||| (account_open(user) && (password_verdict(stored_hash, password) is None || password_verdict(
        stored_hash,
        password,
    ) == Some(Some(false))))
}

/// The found account, by value.
pub open spec fn user_view(user: Option<&UserRecord>) -> Option<UserRecord> {
    match user {
        Some(u) => Some(*u),
        None => None,
    }
}

/// The stored hash as text.
pub open spec fn hash_view(stored_hash: Option<Option<&str>>) -> Option<Option<Seq<char>>> {
    match stored_hash {
        None => None,
        Some(None) => Some(None),
        Some(Some(h)) => Some(Some(h@)),
    }
}

/// Decide an email sign-in from what was found: the live account with the email (if
/// any) and, when it has an email sign-in, its stored password hash (`None` when it has
/// no email sign-in). Every failure on the email or the password gets one and the same
/// `Unauthorized` answer, so the answer does not tell which it was; a suspended or
/// deactivated account is refused as such. Only on `Ok` does the handler go on to
/// record the login and issue tokens.
pub fn decide_signin(user: Option<&UserRecord>, stored_hash: Option<Option<&str>>, password: &str) -> (r:
    Result<(), AppError>)
    ensures
        wrong_credentials(user_view(user), hash_view(stored_hash), password@) ==> (r matches Err(
            AppError::Unauthorized(m),
        ) && m@ == signin_refusal()),
        user matches Some(u) && u.account_status@ == "suspended"@ ==> (r matches Err(AppError::Forbidden(m))
            && m@ == "Account is suspended."@),
        user matches Some(u) && u.account_status@ == "deactivated"@ ==> (r matches Err(
            AppError::Forbidden(m),
        ) && m@ == "Account is deactivated."@),
        account_open(user_view(user)) && password_verdict(hash_view(stored_hash), password@) == Some(
            None::<bool>,
        ) ==> r matches Err(AppError::Internal(_)),
        r is Ok <==> (account_open(user_view(user)) && password_verdict(hash_view(stored_hash), password@)
            == Some(Some(true))),
{
    let u = match user {
        Some(u) => u,
        None => return Err(AppError::Unauthorized(String::from_str("Invalid email or password."))),
    };
    match check_signin_status(u) {
        Ok(()) => {},
        Err(e) => return Err(e),
    }
    let hash = match stored_hash {
        Some(h) => h,
        None => return Err(AppError::Unauthorized(String::from_str("Invalid email or password."))),
    };
    check_password(hash, password, "Invalid email or password.")
}

/// Characters a generated username keeps: alphanumerics and `_`.
pub open spec fn username_chars(s: Seq<char>) -> Seq<char>
    decreases s.len(),
{
    if s.len() == 0 {
        seq![]
    } else if unicode_alphanumeric(s.last()) || s.last() == '_' {
        username_chars(s.drop_last()).push(s.last())
    } else {
        username_chars(s.drop_last())
    }
}

/// Username made from a display name and a random suffix: the name's alphanumerics and
/// `_` (at most 40 of them; `user` when they make fewer than 3 bytes), `_`, and the
/// suffix below 10000.
pub open spec fn spec_generated_username(name: Seq<char>, suffix: u16) -> Seq<char> {
    let kept = username_chars(name);
    let base = if kept.len() <= 40 {
        kept
    } else {
        kept.take(40)
    };
    let base = if byte_len(base) < 3 {
        "user"@
    } else {
        base
    };
    base + "_"@ + spec_decimal((suffix % 10000) as nat)
}

/// Username made from a display name and the given suffix.
pub fn username_from_name(name: &str, suffix: u16) -> (r: String)
    ensures
        r@ == spec_generated_username(name@, suffix),
{
    let v = chars_of(name);
    let mut kept: Vec<char> = Vec::new();
    let mut i: usize = 0;
    while i < v.len()
        invariant
            v@ == name@,
            i <= v@.len(),
            kept@ == username_chars(v@.take(i as int)),
        decreases v@.len() - i,
    {
        let c = v[i];
        assert(v@.take(i + 1).drop_last() =~= v@.take(i as int));
        if is_alphanumeric(c) || c == '_' {
            kept.push(c);
        }
        i = i + 1;
    }
    assert(v@.take(v@.len() as int) =~= v@);
    let mut base: Vec<char> = Vec::new();
    let mut j: usize = 0;
    while j < kept.len() && j < 40
        invariant
            j <= kept@.len(),
            j <= 40,
            base@ == kept@.take(j as int),
        decreases kept@.len() - j,
    {
        base.push(kept[j]);
        j = j + 1;
        assert(base@ =~= kept@.take(j as int));
    }
    if j < kept.len() {
        assert(base@ =~= kept@.take(40));
    } else {
        assert(base@ =~= kept@);
    }
    let base_text = string_from_chars(base.as_slice());
    let mut r = if base_text.as_str().len() < 3 {
        String::from_str("user")
    } else {
        base_text
    };
    r.append("_");
    append_decimal(&mut r, (suffix % 10000) as u64);
    r
}

/// Generate a unique-ish username from a display name by adding a random suffix.
pub fn generate_username_from_name(name: &str) -> (r: String)
    ensures
        exists|suffix: u16| r@ == spec_generated_username(name@, suffix),
{
    let suffix = random_u16();
    username_from_name(name, suffix)
}

/// Characters a URL keeps unescaped: ASCII letters, digits, `-`, `.`, `_` and `~`.
pub open spec fn url_unreserved(b: u8) -> bool {
    (48 <= b <= 57) || (65 <= b <= 90) || (97 <= b <= 122) || b == 45 || b == 46 || b == 95 || b == 126
}

/// Upper-case hexadecimal digit of `d < 16`.
pub open spec fn hex_upper_digit(d: u8) -> char {
    if d < 10 {
        (48 + d) as char
    } else {
        (55 + d) as char
    }
}

/// Percent-encoding of bytes: unreserved bytes as themselves, every other byte as `%XX`.
pub open spec fn percent_encoded(bytes: Seq<u8>) -> Seq<char>
    decreases bytes.len(),
{
    if bytes.len() == 0 {
        seq![]
    } else {
        let b = bytes.last();
        percent_encoded(bytes.drop_last()) + if url_unreserved(b) {
            seq![b as char]
        } else {
            seq!['%', hex_upper_digit(b / 16), hex_upper_digit(b % 16)]
        }
    }
}

/// Calls `urlencoding::encode`. Claimed, as its source shows: every byte of the UTF-8
/// text except ASCII alphanumerics and `-`, `.`, `_`, `~` is written as `%` and two
/// upper-case hexadecimal digits.
#[verifier::external_body]
fn url_encode(s: &str) -> (r: String)
    ensures
        r@ == percent_encoded(encode_utf8(s@)),
{
    urlencoding::encode(s).into_owned()
}

/// Where an OAuth sign-in redirects the browser: the front-end URI with the provider,
/// the URL-encoded tokens and the URL-encoded user JSON as query parameters.
pub fn oauth_redirect_url(
    redirect_uri: &str,
    provider: &str,
    token: &str,
    refresh_token: &str,
    user_json: &str,
) -> (r: String)
    ensures
        r@ == redirect_uri@ + "?provider="@ + provider@ + "&token="@ + percent_encoded(encode_utf8(token@))
            + "&refreshToken="@ + percent_encoded(encode_utf8(refresh_token@)) + "&user="@ + percent_encoded(
            encode_utf8(user_json@),
        ),
{
    let mut r = String::from_str(redirect_uri);
    r.append("?provider=");
    r.append(provider);
    r.append("&token=");
    r.append(url_encode(token).as_str());
    r.append("&refreshToken=");
    r.append(url_encode(refresh_token).as_str());
    r.append("&user=");
    r.append(url_encode(user_json).as_str());
    r
}

/// OAuth with a provider needs its client id configured.
pub fn check_oauth_configured(client_id: &str, provider_label: &str) -> (r: Result<(), AppError>)
    ensures
        r is Ok <==> client_id@.len() > 0,
        r matches Err(e) ==> (e matches AppError::UnprocessableEntity(m) && m@ == provider_label@
            + " OAuth is not configured."@),
{
    if client_id.is_empty() {
        let mut m = String::from_str(provider_label);
        m.append(" OAuth is not configured.");
        return Err(AppError::UnprocessableEntity(m));
    }
    Ok(())
}

/// Only `google` and `github` can be linked.
pub fn check_link_provider_name(provider: &str) -> (r: Result<(), AppError>)
    ensures
        r is Ok <==> (provider@ == "google"@ || provider@ == "github"@),
        r matches Err(e) ==> (e matches AppError::BadRequest(m) && m@ == "Unsupported provider: "@
            + provider@),
{
    if !str_eq(provider, "google") && !str_eq(provider, "github") {
        let mut m = String::from_str("Unsupported provider: ");
        m.append(provider);
        return Err(AppError::BadRequest(m));
    }
    Ok(())
}

/// Linking a provider account: refused when that account is linked already (to this
/// user or another) or when the user already has a provider of that kind.
pub fn check_link(linked_to: Option<u128>, self_id: u128, has_provider_kind: bool, provider: &str) -> (r:
    Result<(), AppError>)
    ensures
        linked_to == Some(self_id) ==> (r matches Err(AppError::Conflict(m)) && m@
            == "This provider is already linked to your account."@),
        linked_to is Some && linked_to != Some(self_id) ==> (r matches Err(AppError::Conflict(m)) && m@
            == "This provider account is linked to a different user."@),
        linked_to is None && has_provider_kind ==> (r matches Err(AppError::Conflict(m)) && m@
            == provider@ + " is already linked to your account."@),
        r is Ok <==> (linked_to is None && !has_provider_kind),
{
    match linked_to {
        Some(owner) => {
            if owner == self_id {
                return Err(AppError::Conflict(String::from_str("This provider is already linked to your account.")));
            }
            return Err(AppError::Conflict(String::from_str("This provider account is linked to a different user.")));
        },
        None => {},
    }
    if has_provider_kind {
        let mut m = String::from_str(provider);
        m.append(" is already linked to your account.");
        return Err(AppError::Conflict(m));
    }
    Ok(())
}

/// Which of the user's providers (given by kind, in order) to unlink: the first of the
/// requested kind. The last remaining provider cannot be unlinked.
pub fn plan_unlink(providers: &Vec<String>, provider: &str) -> (r: Result<usize, AppError>)
    ensures
        providers@.len() <= 1 ==> (r matches Err(AppError::UnprocessableEntity(m)) && m@
            == "Cannot unlink the last remaining auth provider."@),
        providers@.len() > 1 && !(exists|i: int| 0 <= i < providers@.len() && providers@[i]@ == provider@) ==> (r matches Err(
            AppError::NotFound(m),
        ) && m@ == "This provider is not linked to your account."@),
        r matches Ok(i) ==> providers@.len() > 1 && i < providers@.len() && providers@[i as int]@ == provider@
            && forall|j: int| 0 <= j < i ==> providers@[j]@ != provider@,
        r is Ok <==> (providers@.len() > 1 && exists|i: int| 0 <= i < providers@.len() && providers@[i]@ == provider@),
{
    if providers.len() <= 1 {
        return Err(AppError::UnprocessableEntity(String::from_str("Cannot unlink the last remaining auth provider.")));
    }
    let mut i: usize = 0;
    while i < providers.len()
        invariant
            providers@.len() > 1,
            i <= providers@.len(),
            forall|j: int| 0 <= j < i ==> providers@[j]@ != provider@,
        decreases providers@.len() - i,
    {
        if str_eq(providers[i].as_str(), provider) {
            return Ok(i);
        }
        i = i + 1;
    }
    Err(AppError::NotFound(String::from_str("This provider is not linked to your account.")))
}

/// Why a refresh is refused given the presented token's stored record: `record` tells
/// whether the found record is revoked, `None` when none was found.
pub open spec fn refresh_refusal(record: Option<bool>) -> Option<Seq<char>> {
    match record {
        None => Some("Refresh token not found."@),
        Some(true) => Some("Refresh token has been revoked."@),
        Some(false) => None,
    }
}

/// The stored record of a refresh token must exist and not be revoked; `record` is
/// whether the found record is revoked, `None` when none was found.
pub fn check_refresh_record(record: Option<bool>) -> (r: Result<(), AppError>)
    ensures
        record is None ==> (r matches Err(AppError::Unauthorized(m)) && m@ == "Refresh token not found."@),
        record == Some(true) ==> (r matches Err(AppError::Unauthorized(m)) && m@
            == "Refresh token has been revoked."@),
        r is Ok <==> record == Some(false),
        r is Ok <==> refresh_refusal(record) is None,
        r matches Err(e) ==> (e matches AppError::Unauthorized(m) && refresh_refusal(record) == Some(m@)),
{
    match record {
        None => Err(AppError::Unauthorized(String::from_str("Refresh token not found."))),
        Some(true) => Err(AppError::Unauthorized(String::from_str("Refresh token has been revoked."))),
        Some(false) => Ok(()),
    }
}

/// A stored refresh-token record: the token's identifier (its `jti`), its user, and
/// whether it has been revoked.
#[derive(Debug, Clone, Copy, PartialEq, Eq, Structural)]
pub struct RefreshRecord {
    pub id: u128,
    pub user_id: u128,
    pub revoked: bool,
}

/// Whether a found record is revoked, `None` when there is none.
pub open spec fn record_state(found: Option<RefreshRecord>) -> Option<bool> {
    match found {
        Some(rec) => Some(rec.revoked),
        None => None,
    }
}

/// `rec` once revoked.
pub open spec fn revoked_record(rec: RefreshRecord) -> RefreshRecord {
    RefreshRecord { revoked: true, ..rec }
}

/// The record stored for a newly issued refresh token.
pub open spec fn fresh_record(id: u128, user_id: u128) -> RefreshRecord {
    RefreshRecord { id, user_id, revoked: false }
}

/// A refresh uses up the presented token: its record must exist and not be revoked,
/// and it is written back revoked.
pub fn revoke_refresh_record(found: Option<RefreshRecord>) -> (r: Result<RefreshRecord, AppError>)
    ensures
        r is Ok <==> refresh_refusal(record_state(found)) is None,
        r matches Err(e) ==> (e matches AppError::Unauthorized(m) && refresh_refusal(record_state(found))
            == Some(m@)),
        r matches Ok(rec) ==> rec == revoked_record(found->0),
{
    let state = match found {
        Some(rec) => Some(rec.revoked),
        None => None,
    };
    match check_refresh_record(state) {
        Ok(()) => {},
        Err(e) => return Err(e),
    }
    match found {
        Some(rec) => Ok(RefreshRecord { revoked: true, ..rec }),
        None => Err(AppError::Unauthorized(String::from_str("Refresh token not found."))),
    }
}

/// The record to store for a newly issued refresh token: not revoked.
pub fn new_refresh_record(id: u128, user_id: u128) -> (r: RefreshRecord)
    ensures
        r == fresh_record(id, user_id),
{
    RefreshRecord { id, user_id, revoked: false }
}

/// The stored record of a token identifier, `None` when there is none.
pub open spec fn stored_record(store: Map<u128, RefreshRecord>, id: u128) -> Option<RefreshRecord> {
    if store.contains_key(id) {
        Some(store[id])
    } else {
        None
    }
}

/// The record store after a successful refresh of the token stored as `rec`: its
/// record written back revoked, and the record of the new token `new_id` stored fresh.
pub open spec fn after_refresh(store: Map<u128, RefreshRecord>, rec: RefreshRecord, new_id: u128) -> Map<
    u128,
    RefreshRecord,
> {
    store.insert(rec.id, revoked_record(rec)).insert(new_id, fresh_record(new_id, rec.user_id))
}

/// A refresh token that was used once is refused as revoked the next time it is
/// presented, while the token issued in its place has a record of its own, under
/// another identifier, that is not revoked and lets it refresh in turn. The store holds
/// one record per identifier, so the new record is stored only under an identifier
/// not yet in use (a clashing insert fails, and the refresh with it).
pub proof fn lemma_refresh_rotation(store: Map<u128, RefreshRecord>, rec: RefreshRecord, new_id: u128)
    requires
        stored_record(store, rec.id) == Some(rec),
        refresh_refusal(record_state(Some(rec))) is None,
        !store.contains_key(new_id),
    ensures
        new_id != rec.id,
        stored_record(after_refresh(store, rec, new_id), rec.id) == Some(revoked_record(rec)),
        refresh_refusal(record_state(stored_record(after_refresh(store, rec, new_id), rec.id))) == Some(
            "Refresh token has been revoked."@,
        ),
        stored_record(after_refresh(store, rec, new_id), new_id) == Some(fresh_record(new_id, rec.user_id)),
        refresh_refusal(record_state(stored_record(after_refresh(store, rec, new_id), new_id))) is None,
{
}

/// The identifier of a refresh token: its `jti` claim as a UUID.
pub fn refresh_token_id(jti: &str) -> (r: Result<u128, AppError>)
    ensures
        parsed_uuid(jti@) matches Some(u) ==> r == Ok::<u128, AppError>(u),
        parsed_uuid(jti@) is None ==> (r matches Err(AppError::Unauthorized(m)) && m@
            == "Invalid refresh token."@),
{
    match parse_uuid(jti) {
        Some(u) => Ok(u),
        None => Err(AppError::Unauthorized(String::from_str("Invalid refresh token."))),
    }
}

/// A sign-up is refused when the email or the username is already in use, in that order.
pub fn check_signup_conflicts(email_taken: bool, username_taken: bool) -> (r: Result<(), AppError>)
    ensures
        email_taken ==> (r matches Err(AppError::Conflict(m)) && m@ == "Email already registered."@),
        !email_taken && username_taken ==> (r matches Err(AppError::Conflict(m)) && m@
            == "Username already taken."@),
        r is Ok <==> (!email_taken && !username_taken),
{
    if email_taken {
        return Err(AppError::Conflict(String::from_str("Email already registered.")));
    }
    if username_taken {
        return Err(AppError::Conflict(String::from_str("Username already taken.")));
    }
    Ok(())
}

/// Checks a password against the stored hash of an email sign-in. A missing hash or a
/// wrong password gives `Unauthorized(refusal)`; an unreadable hash an internal error.
pub fn check_password(stored_hash: Option<&str>, password: &str, refusal: &str) -> (r: Result<(), AppError>)
    ensures
        stored_hash is None ==> (r matches Err(AppError::Unauthorized(m)) && m@ == refusal@),
        stored_hash matches Some(h) ==> {
            &&& argon2_check(password@, h@) == Some(true) ==> r is Ok
            &&& argon2_check(password@, h@) == Some(false) ==> (r matches Err(AppError::Unauthorized(m))
                && m@ == refusal@)
            &&& argon2_check(password@, h@) is None ==> r matches Err(AppError::Internal(_))
        },
        r is Ok <==> (stored_hash matches Some(h) && argon2_check(password@, h@) == Some(true)),
{
    let h = match stored_hash {
        Some(h) => h,
        None => return Err(AppError::Unauthorized(String::from_str(refusal))),
    };
    match verify_password(password, h) {
        Ok(true) => Ok(()),
        Ok(false) => Err(AppError::Unauthorized(String::from_str(refusal))),
        Err(m) => Err(AppError::Internal(m)),
    }
}

/// The hash to store for a new password: the rule's message as `BadRequest` when the
/// password breaks a rule, and otherwise always a hash that verifies the password.
pub fn new_password_hash(new_password: &str) -> (r: Result<String, AppError>)
    ensures
        spec_password_problem(new_password@) matches Some(p) ==> (r matches Err(
            AppError::BadRequest(m),
        ) && m@ == p),
        r matches Err(AppError::BadRequest(m)) ==> spec_password_problem(new_password@) == Some(m@),
        spec_password_problem(new_password@) is None ==> r is Ok,
        r matches Err(AppError::Internal(m)) ==> spec_password_problem(new_password@) is None
            && m@.take(25) == "Failed to hash password: "@,
        r matches Ok(h) ==> spec_password_problem(new_password@) is None && argon2_check(
            new_password@,
            h@,
        ) == Some(true),
        r matches Err(e) ==> (e is BadRequest || e is Internal),
{
    match validate_password(new_password) {
        Ok(()) => {},
        Err(m) => return Err(AppError::BadRequest(m)),
    }
    match hash_password(new_password) {
        Ok(h) => Ok(h),
        Err(m) => Err(AppError::Internal(m)),
    }
}

/// An email verification token may be used unless its expiry lies before `now`.
pub fn check_verification_expiry(expires_at: Option<i64>, now: i64) -> (r: Result<(), AppError>)
    ensures
        r is Ok <==> !(expires_at matches Some(e) && e < now),
        r matches Err(e) ==> (e matches AppError::BadRequest(m) && m@ == "Verification token has expired."@),
{
    match expires_at {
        Some(e) => if e < now {
            Err(AppError::BadRequest(String::from_str("Verification token has expired.")))
        } else {
            Ok(())
        },
        None => Ok(()),
    }
}

/// A password reset token must carry an expiry, and it must not lie before `now`.
pub fn check_reset_expiry(expires_at: Option<i64>, now: i64) -> (r: Result<(), AppError>)
    ensures
        expires_at is None ==> (r matches Err(AppError::BadRequest(m)) && m@ == "Invalid or expired reset token."@),
        expires_at matches Some(e) && e < now ==> (r matches Err(AppError::BadRequest(m)) && m@
            == "Reset token has expired."@),
        r is Ok <==> (expires_at matches Some(e) && e >= now),
{
    match expires_at {
        Some(e) => if e < now {
            Err(AppError::BadRequest(String::from_str("Reset token has expired.")))
        } else {
            Ok(())
        },
        None => Err(AppError::BadRequest(String::from_str("Invalid or expired reset token."))),
    }
}

/// A fresh verification or password-reset token: the text of a random UUID.
pub fn generate_verification_token() -> (r: String)
    ensures
        exists|u: u128| is_v4(u) && r@ == spec_uuid_text(u),
{
    let u = new_uuid();
    uuid_to_string(u)
}

/// The answer to every password-reset request, whether or not the account exists.
pub open spec fn reset_request_answer() -> Seq<char> {
    "If an account with that email exists, a reset link has been sent."@
}

/// What a password-reset request does: a reset token is issued only for an existing
/// account that signs in by email, and the answer is the same in every case, so that it
/// tells nothing of which emails have accounts.
pub fn plan_password_reset(account_found: bool, email_sign_in: bool) -> (r: (bool, String))
    ensures
        r.0 == (account_found && email_sign_in),
        r.1@ == reset_request_answer(),
{
    (account_found && email_sign_in, String::from_str(
        "If an account with that email exists, a reset link has been sent.",
    ))
}

/// Resending a verification email makes sense only while the email is unverified.
pub fn check_resend(email_verified: bool) -> (r: Result<(), AppError>)
    ensures
        r is Ok <==> !email_verified,
        r matches Err(e) ==> (e matches AppError::UnprocessableEntity(m) && m@ == "Email is already verified."@),
{
    if email_verified {
        return Err(AppError::UnprocessableEntity(String::from_str("Email is already verified.")));
    }
    Ok(())
}

}
