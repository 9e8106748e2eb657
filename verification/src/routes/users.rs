//! The decisions of the account endpoints.
use vstd::prelude::*;
use vstd::string::*;
use crate::auth::password::{argon2_check, spec_email_problem, spec_username_problem, validate_email, validate_username, verify_password};
use crate::error::AppError;
use crate::ids::{append_uuid, spec_uuid_text};
use crate::text::{byte_len, chars_of, spec_trim, str_eq, to_lowercase, trim, unicode_lowercase};

verus! {

/// Profile fields a user may change; `None` leaves a field as it is.
#[derive(Debug, Clone)]
pub struct UpdateMeRequest {
    pub display_name: Option<String>,
    pub bio: Option<String>,
    pub avatar_url: Option<String>,
}

/// Validate a display name: at most 100 bytes of UTF-8 (its `str::len`).
pub fn validate_display_name(name: &str) -> (r: Result<(), String>)
    ensures
        r is Ok <==> byte_len(name@) <= 100,
        r matches Err(m) ==> m@ == "Display name must be at most 100 characters."@,
{
    if name.len() > 100 {
        return Err(String::from_str("Display name must be at most 100 characters."));
    }
    Ok(())
}

/// Validate a bio: at most 500 bytes of UTF-8 (its `str::len`).
pub fn validate_bio(bio: &str) -> (r: Result<(), String>)
    ensures
        r is Ok <==> byte_len(bio@) <= 500,
        r matches Err(m) ==> m@ == "Bio must be at most 500 characters."@,
{
    if bio.len() > 500 {
        return Err(String::from_str("Bio must be at most 500 characters."));
    }
    Ok(())
}

/// Checks a profile update and tells whether it changes anything.
pub fn plan_update_me(req: &UpdateMeRequest) -> (r: Result<bool, AppError>)
    ensures
        req.display_name matches Some(d) && byte_len(d@) > 100 ==> (r matches Err(
            AppError::BadRequest(m),
        ) && m@ == "Display name must be at most 100 characters."@),
        (req.display_name matches Some(d) ==> byte_len(d@) <= 100) && req.bio is Some && byte_len(
            req.bio->0@,
        ) > 500 ==> (r matches Err(AppError::BadRequest(m)) && m@ == "Bio must be at most 500 characters."@),
        r is Ok <==> ((req.display_name matches Some(d) ==> byte_len(d@) <= 100) && (req.bio matches Some(b)
            ==> byte_len(b@) <= 500)),
        r matches Ok(changed) ==> changed == (req.display_name is Some || req.bio is Some
            || req.avatar_url is Some),
{
    match &req.display_name {
        Some(d) => match validate_display_name(d.as_str()) {
            Ok(()) => {},
            Err(m) => return Err(AppError::BadRequest(m)),
        },
        None => {},
    }
    match &req.bio {
        Some(b) => match validate_bio(b.as_str()) {
            Ok(()) => {},
            Err(m) => return Err(AppError::BadRequest(m)),
        },
        None => {},
    }
    Ok(req.display_name.is_some() || req.bio.is_some() || req.avatar_url.is_some())
}

/// Length of the part of `s` after its last `sep` (all of `s` when there is none).
pub open spec fn last_field_len(s: Seq<char>, sep: char) -> nat
    decreases s.len(),
{
    if s.len() == 0 || s.last() == sep {
        0
    } else {
        1 + last_field_len(s.drop_last(), sep)
    }
}

/// The part of `s` after its last `sep` (what `s.rsplit(sep).next()` gives).
pub open spec fn last_field(s: Seq<char>, sep: char) -> Seq<char> {
    s.skip(s.len() - last_field_len(s, sep))
}

/// The lower-cased extension of an uploaded file name: what follows its last `.`
/// (the whole name when it has none).
pub fn avatar_extension(file_name: &str) -> (r: String)
    ensures
        r@ == unicode_lowercase(last_field(file_name@, '.')),
{
    let n = file_name.unicode_len();
    let mut i: usize = n;
    assert(file_name@.take(n as int) =~= file_name@);
    while i > 0 && file_name.get_char(i - 1) != '.'
        invariant
            n == file_name@.len(),
            i <= n,
            last_field_len(file_name@, '.') == (n - i) + last_field_len(file_name@.take(i as int), '.'),
        decreases i,
    {
        assert(file_name@.take(i as int).drop_last() =~= file_name@.take(i - 1));
        i = i - 1;
    }
    assert(last_field_len(file_name@.take(i as int), '.') == 0) by {
        if i > 0 {
            assert(file_name@.take(i as int).last() == file_name@[i - 1]);
        }
    }
    assert(file_name@.subrange(i as int, n as int) =~= last_field(file_name@, '.'));
    to_lowercase(file_name.substring_char(i, n))
}

/// Image types an avatar may have.
pub open spec fn allowed_avatar_extension(ext: Seq<char>) -> bool {
    ext == "png"@ || ext == "jpg"@ || ext == "jpeg"@ || ext == "gif"@ || ext == "svg"@
}

/// Refuses an avatar whose extension is not an allowed image type.
pub fn check_avatar_extension(ext: &str) -> (r: Result<(), AppError>)
    ensures
        r is Ok <==> allowed_avatar_extension(ext@),
        r matches Err(e) ==> (e matches AppError::BadRequest(m) && m@
            == "Unsupported file type. Allowed: PNG, JPG, GIF, SVG."@),
{
    if !(str_eq(ext, "png") || str_eq(ext, "jpg") || str_eq(ext, "jpeg") || str_eq(ext, "gif")
        || str_eq(ext, "svg")) {
        return Err(AppError::BadRequest(String::from_str("Unsupported file type. Allowed: PNG, JPG, GIF, SVG.")));
    }
    Ok(())
}

/// Largest avatar: 5 MB.
pub const MAX_AVATAR_SIZE: usize = 5242880;

/// Refuses an avatar larger than 5 MB.
pub fn check_avatar_size(len: usize) -> (r: Result<(), AppError>)
    ensures
        r is Ok <==> len <= MAX_AVATAR_SIZE,
        r matches Err(e) ==> (e matches AppError::BadRequest(m) && m@ == "File exceeds the 5 MB size limit."@),
{
    if len > MAX_AVATAR_SIZE {
        return Err(AppError::BadRequest(String::from_str("File exceeds the 5 MB size limit.")));
    }
    Ok(())
}

/// Stored file name `{file id}.{extension}` and the avatar URL `avatars/{stored name}`.
pub fn avatar_names(file_id: u128, ext: &str) -> (r: (String, String))
    ensures
        r.0@ == spec_uuid_text(file_id) + "."@ + ext@,
        r.1@ == "avatars/"@ + r.0@,
{
    let mut stored = String::new();
    append_uuid(&mut stored, file_id);
    stored.append(".");
    stored.append(ext);
    let mut url = String::from_str("avatars/");
    url.append(stored.as_str());
    (stored, url)
}

/// A requested new username, trimmed and validated.
pub fn prepare_new_username(raw: &str) -> (r: Result<String, AppError>)
    ensures
        spec_username_problem(spec_trim(raw@)) matches Some(p) ==> (r matches Err(
            AppError::BadRequest(m),
        ) && m@ == p),
        spec_username_problem(spec_trim(raw@)) is None ==> (r matches Ok(u)
            && u@ == spec_trim(raw@)),
{
    let t = trim(raw);
    match validate_username(t) {
        Ok(()) => Ok(String::from_str(t)),
        Err(m) => Err(AppError::BadRequest(m)),
    }
}

/// A requested new email, trimmed, lower-cased and validated.
pub fn prepare_new_email(raw: &str) -> (r: Result<String, AppError>)
    ensures
        spec_email_problem(unicode_lowercase(spec_trim(raw@))) matches Some(p) ==> (r matches Err(
            AppError::BadRequest(m),
        ) && m@ == p),
        spec_email_problem(unicode_lowercase(spec_trim(raw@))) is None ==> (r matches Ok(e) && e@
            == unicode_lowercase(spec_trim(raw@))),
{
    let e = to_lowercase(trim(raw));
    match validate_email(e.as_str()) {
        Ok(()) => Ok(e),
        Err(m) => Err(AppError::BadRequest(m)),
    }
}

/// A value that must be unique may be taken only by the user themself:
/// `Conflict(message)` when another account (`holder`) has it.
pub fn check_unique(holder: Option<u128>, self_id: u128, message: &str) -> (r: Result<(), AppError>)
    ensures
        r is Ok <==> (holder is None || holder == Some(self_id)),
        r matches Err(e) ==> (e matches AppError::Conflict(m) && m@ == message@),
{
    match holder {
        Some(h) => if h != self_id {
            Err(AppError::Conflict(String::from_str(message)))
        } else {
            Ok(())
        },
        None => Ok(()),
    }
}

/// Proof of ownership before a sensitive change: accounts with an email sign-in
/// (`email_provider` is `Some(stored hash)`) must give their password and it must
/// match; accounts that sign in only through OAuth need nothing.
pub fn verify_account_ownership(email_provider: Option<Option<String>>, supplied: Option<&str>) -> (r:
    Result<(), AppError>)
    ensures
        email_provider is None ==> r is Ok,
        email_provider is Some && supplied is None ==> (r matches Err(AppError::BadRequest(m)) && m@
            == "Password is required for email-linked accounts."@),
        email_provider == Some(None::<String>) && supplied is Some ==> (r matches Err(AppError::Internal(m))
            && m@ == "Email provider has no password hash"@),
        email_provider is Some && email_provider->0 is Some && supplied is Some ==> ({
            let h = email_provider->0->0;
            &&& argon2_check(supplied->0@, h@) == Some(true) ==> r is Ok
            &&& argon2_check(supplied->0@, h@) == Some(false) ==> (r matches Err(AppError::Unauthorized(m))
                && m@ == "Password is incorrect."@)
            &&& argon2_check(supplied->0@, h@) is None ==> r matches Err(AppError::Internal(_))
        }),
{
    match email_provider {
        None => Ok(()),
        Some(hash) => {
            let pw = match supplied {
                Some(p) => p,
                None => return Err(AppError::BadRequest(String::from_str("Password is required for email-linked accounts."))),
            };
            let h = match hash {
                Some(h) => h,
                None => return Err(AppError::Internal(String::from_str("Email provider has no password hash"))),
            };
            match verify_password(pw, h.as_str()) {
                Ok(true) => Ok(()),
                Ok(false) => Err(AppError::Unauthorized(String::from_str("Password is incorrect."))),
                Err(m) => Err(AppError::Internal(m)),
            }
        },
    }
}

}
