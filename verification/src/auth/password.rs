//! Password hashing and the account-field validators.
use vstd::prelude::*;
use vstd::string::*;
use argon2::password_hash::SaltString;
use argon2::{Argon2, PasswordHash, PasswordHasher, PasswordVerifier};
use crate::text::{chars_of, is_alphanumeric, spec_trim, trim, unicode_alphanumeric};

verus! {

/// Outcome of checking `password` against the Argon2 hash text `hash`: `None` when the
/// text is not a PHC hash string, otherwise whether the password matches it.
pub uninterp spec fn argon2_check(password: Seq<char>, hash: Seq<char>) -> Option<bool>;

/// Calls `SaltString::generate(OsRng)` and `Argon2::default().hash_password`, and renders
/// the hash as its PHC string. Claimed: the salt is random, so the text is not a function
/// of the password; but whenever hashing succeeds, checking the same password against
/// the text succeeds (verification recomputes the hash with the salt and parameters
/// stored in it). Hashing with the default parameters and a generated 16-byte salt
/// fails only for a password longer than `0xFFFF_FFFF` bytes, so one of at most
/// `0x3FFF_FFFF` characters (four bytes each at most) is always hashed. The error text
/// of a failure is not described.
#[verifier::external_body]
fn argon2_hash(password: &str) -> (r: Result<String, String>)
    ensures
        r matches Ok(h) ==> argon2_check(password@, h@) == Some(true),
        password@.len() <= 0x3FFF_FFFF ==> r is Ok,
{
    let salt = SaltString::generate(&mut rand::rngs::OsRng);
    Argon2::default().hash_password(password.as_bytes(), &salt).map(|h| h.to_string()).map_err(
        |e| e.to_string(),
    )
}

/// Calls `PasswordHash::new(hash)` and then `Argon2::default().verify_password`.
/// Claimed: parsing fails exactly when `argon2_check` is `None`; otherwise the
/// boolean is `argon2_check`'s. The text of a parse error is not described.
#[verifier::external_body]
fn argon2_verify(password: &str, hash: &str) -> (r: Result<bool, String>)
    ensures
        r is Ok <==> argon2_check(password@, hash@) is Some,
        r matches Ok(b) ==> argon2_check(password@, hash@) == Some(b),
{
    match PasswordHash::new(hash) {
        Ok(parsed) => Ok(Argon2::default().verify_password(password.as_bytes(), &parsed).is_ok()),
        Err(e) => Err(e.to_string()),
    }
}

/// Hash a password using `Argon2id` with a fresh random salt. A hash that comes back
/// verifies the same password; any password of at most `0x3FFF_FFFF` characters is
/// hashed.
pub fn hash_password(password: &str) -> (r: Result<String, String>)
    ensures
        password@.len() <= 0x3FFF_FFFF ==> r is Ok,
        r matches Ok(h) ==> argon2_check(password@, h@) == Some(true),
        r matches Err(m) ==> m@.take(25) == "Failed to hash password: "@,
{
    match argon2_hash(password) {
        Ok(h) => Ok(h),
        Err(e) => {
            let mut m = String::from_str("Failed to hash password: ");
            m.append(e.as_str());
            proof {
                reveal_strlit("Failed to hash password: ");
                assert(m@.take(25) =~= "Failed to hash password: "@);
            }
            Err(m)
        },
    }
}

/// Verify a password against an `Argon2id` hash: `Ok(true)` if it matches, `Ok(false)`
/// if not, and an error when the hash text is not a valid hash.
pub fn verify_password(password: &str, hash: &str) -> (r: Result<bool, String>)
    ensures
        r is Ok <==> argon2_check(password@, hash@) is Some,
        r matches Ok(b) ==> argon2_check(password@, hash@) == Some(b),
        r matches Err(m) ==> m@.take(23) == "Invalid password hash: "@,
{
    match argon2_verify(password, hash) {
        Ok(b) => Ok(b),
        Err(e) => {
            let mut m = String::from_str("Invalid password hash: ");
            m.append(e.as_str());
            proof {
                reveal_strlit("Invalid password hash: ");
                assert(m@.take(23) =~= "Invalid password hash: "@);
            }
            Err(m)
        },
    }
}

/// Why a password is refused, if it is: fewer than 8 or more than 128 characters.
pub open spec fn spec_password_problem(password: Seq<char>) -> Option<Seq<char>> {
    if password.len() < 8 {
        Some("Password must be at least 8 characters."@)
    } else if password.len() > 128 {
        Some("Password must be at most 128 characters."@)
    } else {
        None
    }
}

/// Validate password complexity rules: at least 8 and at most 128 characters.
pub fn validate_password(password: &str) -> (r: Result<(), String>)
    ensures
        match r {
            Ok(()) => spec_password_problem(password@) is None,
            Err(m) => spec_password_problem(password@) == Some(m@),
        },
        r is Ok <==> 8 <= password@.len() <= 128,
{
    let n = password.unicode_len();
    if n < 8 {
        return Err(String::from_str("Password must be at least 8 characters."));
    }
    if n > 128 {
        return Err(String::from_str("Password must be at most 128 characters."));
    }
    Ok(())
}

/// Whether `t` has the shape `local@domain`: exactly one `@`, with something before it,
/// and a domain that is not empty and contains a `.`.
pub open spec fn spec_email_shape(t: Seq<char>) -> bool {
    exists|k: int|
        0 < k < t.len() - 1 && t[k] == '@' && (forall|j: int|
            0 <= j < t.len() && j != k ==> t[j] != '@') && (exists|j: int|
            k < j < t.len() && t[j] == '.')
}

/// Why an email is refused, if it is, judged on its trimmed text.
pub open spec fn spec_email_problem(email: Seq<char>) -> Option<Seq<char>> {
    let t = spec_trim(email);
    if t.len() == 0 {
        Some("Email is required."@)
    } else if !spec_email_shape(t) {
        Some("Invalid email format."@)
    } else {
        None
    }
}

/// Whether the trimmed characters `t` have the `local@domain.tld` shape.
fn email_shape(t: &Vec<char>) -> (r: bool)
    ensures
        r == spec_email_shape(t@),
{
    let n = t.len();
    let mut at_count: usize = 0;
    let mut at_index: usize = 0;
    let mut i: usize = 0;
    while i < n
        invariant
            n == t@.len(),
            i <= n,
            at_count <= i,
            at_count == 0 ==> forall|j: int| 0 <= j < i ==> t@[j] != '@',
            at_count == 1 ==> at_index < i && t@[at_index as int] == '@' && forall|j: int|
                0 <= j < i && j != at_index ==> t@[j] != '@',
            at_count >= 2 ==> exists|a: int, b: int|
                0 <= a < b < i && t@[a] == '@' && t@[b] == '@',
        decreases n - i,
    {
        if t[i] == '@' {
            if at_count == 0 {
                at_index = i;
                at_count = 1;
            } else {
                if at_count == 1 {
                    assert(t@[at_index as int] == '@' && t@[i as int] == '@');
                }
                at_count = 2;
            }
        }
        i = i + 1;
    }
    if at_count != 1 {
        if at_count >= 2 {
            assert(!spec_email_shape(t@)) by {
                let (a, b) = choose|a: int, b: int| 0 <= a < b < n && t@[a] == '@' && t@[b] == '@';
                if spec_email_shape(t@) {
                    let k = choose|k: int|
                        0 < k < t@.len() - 1 && t@[k] == '@' && (forall|j: int|
                            0 <= j < t@.len() && j != k ==> t@[j] != '@') && (exists|j: int|
                            k < j < t@.len() && t@[j] == '.');
                    assert(a == k || t@[a] != '@');
                    assert(b == k || t@[b] != '@');
                }
            }
        }
        return false;
    }
    if at_index == 0 || at_index + 1 >= n {
        return false;
    }
    let mut j: usize = at_index + 1;
    while j < n
        invariant
            n == t@.len(),
            at_index < j <= n,
            0 < at_index < n - 1,
            t@[at_index as int] == '@',
            forall|m: int| 0 <= m < n && m != at_index ==> t@[m] != '@',
            forall|m: int| at_index < m < j ==> t@[m] != '.',
        decreases n - j,
    {
        if t[j] == '.' {
            assert(at_index < j < n && t@[j as int] == '.');
            return true;
        }
        j = j + 1;
    }
    false
}

/// Validate email format (trimmed, non-empty, one `@` with non-empty parts, a `.` in the domain).
pub fn validate_email(email: &str) -> (r: Result<(), String>)
    ensures
        match r {
            Ok(()) => spec_email_problem(email@) is None,
            Err(m) => spec_email_problem(email@) == Some(m@),
        },
{
    let trimmed = trim(email);
    if trimmed.is_empty() {
        return Err(String::from_str("Email is required."));
    }
    let t = chars_of(trimmed);
    if !email_shape(&t) {
        return Err(String::from_str("Invalid email format."));
    }
    Ok(())
}

/// Letters (in Unicode's sense), digits and `_`.
pub open spec fn spec_username_char(c: char) -> bool {
    unicode_alphanumeric(c) || c == '_'
}

/// Why a username is refused, if it is: shorter than 3 or longer than 50 characters, or
/// a character that is not alphanumeric or `_`.
pub open spec fn spec_username_problem(s: Seq<char>) -> Option<Seq<char>> {
    if s.len() < 3 {
        Some("Username must be at least 3 characters."@)
    } else if s.len() > 50 {
        Some("Username must be at most 50 characters."@)
    } else if !(forall|i: int| 0 <= i < s.len() ==> spec_username_char(#[trigger] s[i])) {
        Some("Username may only contain letters, numbers, and underscores."@)
    } else {
        None
    }
}

/// Whether every character satisfies `spec_username_char`.
fn all_username_chars(v: &Vec<char>) -> (r: bool)
    ensures
        r == forall|i: int| 0 <= i < v@.len() ==> spec_username_char(#[trigger] v@[i]),
{
    let mut i: usize = 0;
    while i < v.len()
        invariant
            i <= v@.len(),
            forall|j: int| 0 <= j < i ==> spec_username_char(#[trigger] v@[j]),
        decreases v@.len() - i,
    {
        if !(is_alphanumeric(v[i]) || v[i] == '_') {
            return false;
        }
        i = i + 1;
    }
    true
}

/// Validate username format: 3-50 characters, each alphanumeric or an underscore.
pub fn validate_username(username: &str) -> (r: Result<(), String>)
    ensures
        match r {
            Ok(()) => spec_username_problem(username@) is None,
            Err(m) => spec_username_problem(username@) == Some(m@),
        },
        r is Ok <==> (3 <= username@.len() <= 50 && forall|i: int|
            0 <= i < username@.len() ==> spec_username_char(#[trigger] username@[i])),
{
    let v = chars_of(username);
    if v.len() < 3 {
        return Err(String::from_str("Username must be at least 3 characters."));
    }
    if v.len() > 50 {
        return Err(String::from_str("Username must be at most 50 characters."));
    }
    if !all_username_chars(&v) {
        return Err(String::from_str("Username may only contain letters, numbers, and underscores."));
    }
    Ok(())
}

}
