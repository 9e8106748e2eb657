//! Six-character join codes.
use vstd::prelude::*;
use vstd::string::*;
use vstd::utf8::encode_utf8;
use crate::random::random_below;
use crate::text::{all_ascii, ascii_upper, byte_len, chars_of, lemma_leading_ws_bounds, lemma_trailing_ws_bounds, lemma_trim_edges, lemma_trim_of_trimmed,
    leading_ws, push_char, spec_ascii_upper, spec_is_whitespace, spec_trim, to_uppercase, trim, unicode_uppercase};

verus! {

/// Number of characters in a join code.
pub const GAME_CODE_LENGTH: usize = 6;

/// Number of characters in the join-code alphabet.
pub const GAME_CODE_ALPHABET_SIZE: usize = 31;

/// The join-code alphabet `ABCDEFGHJKMNPQRSTUVWXYZ23456789` (upper-case letters and
/// digits without the easily confused `0`, `O`, `I`, `1` and `L`), by position.
pub open spec fn spec_alphabet_byte(i: int) -> u8 {
    if i < 8 {
        (65 + i) as u8
    } else if i == 8 {
        74u8
    } else if i == 9 {
        75u8
    } else if i == 10 {
        77u8
    } else if i == 11 {
        78u8
    } else if i < 23 {
        (80 + (i - 12)) as u8
    } else {
        (50 + (i - 23)) as u8
    }
}

/// Whether byte `b` is in the join-code alphabet.
pub open spec fn is_code_byte(b: u8) -> bool {
    (65 <= b <= 90 && b != 73 && b != 76 && b != 79) || (50 <= b <= 57)
}

/// The byte at position `i < 31` of the alphabet.
pub fn alphabet_byte(i: usize) -> (b: u8)
    requires
        i < GAME_CODE_ALPHABET_SIZE,
    ensures
        b == spec_alphabet_byte(i as int),
        is_code_byte(b),
{
    if i < 8 {
        (65 + i) as u8
    } else if i == 8 {
        74
    } else if i == 9 {
        75
    } else if i == 10 {
        77
    } else if i == 11 {
        78
    } else if i < 23 {
        (80 + (i - 12)) as u8
    } else {
        (50 + (i - 23)) as u8
    }
}

/// Whether `c` may stand in a join code: an ASCII character whose ASCII upper-case form
/// is in the alphabet (so lower-case letters count as their capitals).
pub open spec fn is_code_char(c: char) -> bool {
    (c as u32) < 128 && is_code_byte((spec_ascii_upper(c) as u32) as u8)
}

/// A well-formed join code: six characters, each of the code alphabet (in either case).
pub open spec fn spec_valid_game_code(s: Seq<char>) -> bool {
    &&& s.len() == GAME_CODE_LENGTH
    &&& forall|i: int| 0 <= i < s.len() ==> is_code_char(#[trigger] s[i])
}

/// The join-code alphabet as written out.
pub open spec fn code_alphabet_text() -> Seq<char> {
    "ABCDEFGHJKMNPQRSTUVWXYZ23456789"@
}

/// A character may stand in a join code exactly when it is ASCII and its ASCII
/// upper-case form is one of `ABCDEFGHJKMNPQRSTUVWXYZ23456789`; so `0`, `O`, `1`, `I`
/// and `L` (in either case) never do.
pub proof fn lemma_code_chars_are_the_alphabet(c: char)
    ensures
        is_code_char(c) <==> ((c as u32) < 128 && code_alphabet_text().contains(spec_ascii_upper(c))),
        !is_code_char('0') && !is_code_char('O') && !is_code_char('o') && !is_code_char('1'),
        !is_code_char('I') && !is_code_char('i') && !is_code_char('L') && !is_code_char('l'),
{
    reveal_strlit("ABCDEFGHJKMNPQRSTUVWXYZ23456789");
    let a = code_alphabet_text();
    assert(a.len() == 31);
    let u = spec_ascii_upper(c);
    if (c as u32) < 128 {
        assert((u as u32) < 128);
        assert(((u as u32) as u8) as u32 == u as u32);
        if is_code_char(c) {
            let b = (u as u32) as u8;
            let j: int = if 65 <= b <= 72 {
                b - 65
            } else if b == 74 {
                8
            } else if b == 75 {
                9
            } else if b == 77 {
                10
            } else if b == 78 {
                11
            } else if 80 <= b <= 90 {
                b - 68
            } else {
                b - 27
            };
            assert(a[j] == u);
        }
        if a.contains(u) {
            let j = choose|j: int| 0 <= j < a.len() && a[j] == u;
            assert(is_code_byte((u as u32) as u8));
        }
    }
}

/// A valid join code is exactly six characters, each ASCII with its upper-case form in
/// `ABCDEFGHJKMNPQRSTUVWXYZ23456789`.
pub proof fn lemma_valid_code_is_six_alphabet_chars(s: Seq<char>)
    ensures
        spec_valid_game_code(s) <==> (s.len() == 6 && forall|i: int|
            0 <= i < s.len() ==> (#[trigger] s[i] as u32) < 128 && code_alphabet_text().contains(
                spec_ascii_upper(s[i]),
            )),
{
    assert forall|i: int| 0 <= i < s.len() implies (is_code_char(#[trigger] s[i]) <==> ((s[i] as u32)
        < 128 && code_alphabet_text().contains(spec_ascii_upper(s[i])))) by {
        lemma_code_chars_are_the_alphabet(s[i]);
    }
}

/// Validate game code format: six characters of the code alphabet, in either case.
pub fn is_valid_game_code(code: &str) -> (r: bool)
    ensures
        r == spec_valid_game_code(code@),
{
    let v = chars_of(code);
    if v.len() != GAME_CODE_LENGTH {
        return false;
    }
    let mut i: usize = 0;
    while i < v.len()
        invariant
            v@ == code@,
            v@.len() == GAME_CODE_LENGTH,
            i <= v@.len(),
            forall|j: int| 0 <= j < i ==> is_code_char(#[trigger] code@[j]),
        decreases v@.len() - i,
    {
        let c = v[i];
        if (c as u32) >= 128 {
            assert(!is_code_char(code@[i as int]));
            return false;
        }
        let b = (ascii_upper(c) as u32) as u8;
        if !((65 <= b && b <= 90 && b != 73 && b != 76 && b != 79) || (50 <= b && b <= 57)) {
            assert(!is_code_char(code@[i as int]));
            return false;
        }
        i = i + 1;
    }
    true
}

/// A code as it is looked up from ASCII input: trimmed, each letter upper-cased.
pub open spec fn spec_normalized_ascii(s: Seq<char>) -> Seq<char> {
    spec_trim(s).map_values(|c: char| spec_ascii_upper(c))
}

/// Normalize a game code: trimmed and upper-cased. On ASCII input that is the trimmed
/// text with each letter upper-cased.
pub fn normalize_game_code(code: &str) -> (r: String)
    ensures
        r@ == unicode_uppercase(spec_trim(code@)),
        all_ascii(code@) ==> r@ == spec_normalized_ascii(code@),
{
    let t = trim(code);
    proof {
        if all_ascii(code@) {
            lemma_trim_ascii(code@);
        }
    }
    to_uppercase(t)
}

/// Trimming keeps an ASCII text ASCII.
proof fn lemma_trim_ascii(s: Seq<char>)
    requires
        all_ascii(s),
    ensures
        all_ascii(spec_trim(s)),
{
    let lead = leading_ws(s);
    lemma_leading_ws_bounds(s);
    let rest = s.skip(lead as int);
    lemma_trailing_ws_bounds(rest);
    assert forall|i: int| 0 <= i < spec_trim(s).len() implies (spec_trim(s)[i] as u32) < 0x80 by {
        assert(spec_trim(s)[i] == rest[i]);
        assert(rest[i] == s[lead + i]);
    }
}

/// On ASCII input, normalizing a code twice is normalizing it once; the result is ASCII;
/// and it is a valid code exactly when the trimmed input is.
pub proof fn lemma_normalize_game_code(s: Seq<char>)
    requires
        all_ascii(s),
    ensures
        all_ascii(spec_normalized_ascii(s)),
        spec_normalized_ascii(spec_normalized_ascii(s)) == spec_normalized_ascii(s),
        spec_valid_game_code(spec_normalized_ascii(s)) == spec_valid_game_code(spec_trim(s)),
{
    lemma_trim_ascii(s);
    let t = spec_trim(s);
    let n = spec_normalized_ascii(s);
    assert forall|i: int| 0 <= i < n.len() implies (n[i] as u32) < 0x80 && spec_is_whitespace(n[i])
        == spec_is_whitespace(t[i]) && spec_ascii_upper(n[i]) == n[i] && is_code_char(n[i]) == is_code_char(t[i]) by {
        assert(n[i] == spec_ascii_upper(t[i]));
    }
    lemma_trim_edges(s);
    lemma_trim_of_trimmed(n);
    assert(spec_normalized_ascii(n) =~= n);
    if spec_valid_game_code(t) {
        assert forall|i: int| 0 <= i < n.len() implies is_code_char(#[trigger] n[i]) by {
            assert(is_code_char(t[i]));
            assert(n[i] == spec_ascii_upper(t[i]));
        }
    }
    if spec_valid_game_code(n) {
        assert forall|i: int| 0 <= i < t.len() implies is_code_char(#[trigger] t[i]) by {
            assert(is_code_char(n[i]));
            assert(n[i] == spec_ascii_upper(t[i]));
        }
    }
}

/// Every character of `s` is an alphabet byte.
pub open spec fn all_alphabet_chars(s: Seq<char>) -> bool {
    forall|i: int| 0 <= i < s.len() ==> (s[i] as u32) < 128 && is_code_byte(#[trigger] (s[i] as u32) as u8)
}

/// UTF-8 length of a string of ASCII characters is its length.
pub proof fn lemma_alphabet_utf8_len(s: Seq<char>)
    requires
        all_alphabet_chars(s),
    ensures
        encode_utf8(s).len() == s.len(),
    decreases s.len(),
{
    if s.len() > 0 {
        assert(all_alphabet_chars(s.drop_first())) by {
            assert forall|i: int| 0 <= i < s.drop_first().len() implies (s.drop_first()[i] as u32) < 128
                && is_code_byte(#[trigger] (s.drop_first()[i] as u32) as u8) by {
                assert(s.drop_first()[i] == s[i + 1]);
            }
        }
        lemma_alphabet_utf8_len(s.drop_first());
        assert((s[0] as u32) < 128);
    }
}

/// A code drawn from the alphabet is a valid code.
pub proof fn lemma_alphabet_code_valid(s: Seq<char>)
    requires
        all_alphabet_chars(s),
        s.len() == GAME_CODE_LENGTH,
    ensures
        spec_valid_game_code(s),
{
    assert forall|i: int| 0 <= i < s.len() implies is_code_char(#[trigger] s[i]) by {
        assert((s[i] as u32) < 128 && is_code_byte((s[i] as u32) as u8));
        assert(!('a' <= s[i] && s[i] <= 'z'));
    }
}

/// Generate a random 6-character game code over the alphabet.
pub fn generate_game_code() -> (r: String)
    ensures
        r@.len() == GAME_CODE_LENGTH,
        byte_len(r@) == GAME_CODE_LENGTH,
        all_alphabet_chars(r@),
        spec_valid_game_code(r@),
{
    let mut r = String::new();
    let mut k: usize = 0;
    while k < GAME_CODE_LENGTH
        invariant
            k <= GAME_CODE_LENGTH,
            r@.len() == k,
            all_alphabet_chars(r@),
        decreases GAME_CODE_LENGTH - k,
    {
        let idx = random_below(GAME_CODE_ALPHABET_SIZE);
        let b = alphabet_byte(idx);
        let ghost old_r = r@;
        push_char(&mut r, b as char);
        assert(r@ == old_r.push(b as char));
        assert forall|i: int| 0 <= i < r@.len() implies (r@[i] as u32) < 128 && is_code_byte(#[trigger] (r@[i] as u32) as u8) by {
            if i < old_r.len() {
                assert(r@[i] == old_r[i]);
            }
        }
        k = k + 1;
    }
    proof {
        lemma_alphabet_code_valid(r@);
        lemma_alphabet_utf8_len(r@);
    }
    r
}

}
