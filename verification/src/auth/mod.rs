//! Authentication: passwords, token claims, request identity and OAuth profiles.
pub mod jwt;
pub mod middleware;
pub mod oauth;
pub mod password;

use vstd::prelude::*;
use vstd::string::*;
use crate::text::{spec_trim, trim};

verus! {

/// Length of the part of `s` before its first `sep` (all of `s` when there is none).
pub open spec fn first_field_len(s: Seq<char>, sep: char) -> nat
    decreases s.len(),
{
    if s.len() == 0 || s[0] == sep {
        0
    } else {
        1 + first_field_len(s.drop_first(), sep)
    }
}

/// The part of `s` before its first `sep` (what `s.split(sep).next()` gives).
pub open spec fn first_field(s: Seq<char>, sep: char) -> Seq<char> {
    s.take(first_field_len(s, sep) as int)
}

/// The part of `s` before its first `sep`.
pub fn split_first_field(s: &str, sep: char) -> (r: &str)
    ensures
        r@ == first_field(s@, sep),
{
    let n = s.unicode_len();
    let mut i: usize = 0;
    assert(s@.skip(0) =~= s@);
    while i < n && s.get_char(i) != sep
        invariant
            n == s@.len(),
            i <= n,
            first_field_len(s@, sep) == i + first_field_len(s@.skip(i as int), sep),
        decreases n - i,
    {
        assert(s@.skip(i as int).drop_first() =~= s@.skip(i + 1));
        i = i + 1;
    }
    assert(first_field_len(s@.skip(i as int), sep) == 0) by {
        if i < n {
            assert(s@.skip(i as int)[0] == s@[i as int]);
        }
    }
    assert(s@.skip(0).take(i as int) =~= s@.subrange(0, i as int));
    s.substring_char(0, i)
}

/// The client IP the request came from: the first entry of `X-Forwarded-For`
/// (trimmed) when that header is present, otherwise `X-Real-IP`.
pub fn extract_client_ip(forwarded_for: Option<&str>, real_ip: Option<&str>) -> (r: Option<String>)
    ensures
        forwarded_for matches Some(f) ==> r matches Some(ip) && ip@ == spec_trim(first_field(f@, ',')),
        forwarded_for is None ==> (r matches Some(ip) <==> real_ip is Some),
        forwarded_for is None ==> (r matches Some(ip) ==> ip@ == real_ip->0@),
{
    match forwarded_for {
        Some(f) => Some(String::from_str(trim(split_first_field(f, ',')))),
        None => match real_ip {
            Some(ip) => Some(String::from_str(ip)),
            None => None,
        },
    }
}

}
