//! Character and string helpers shared by the validators and formatters.
use vstd::prelude::*;
use vstd::string::*;

verus! {

/// Unicode `White_Space` property (the characters for which `char::is_whitespace` holds).
pub open spec fn spec_is_whitespace(c: char) -> bool {
    let u = c as u32;
    ||| 0x09 <= u <= 0x0D
    ||| u == 0x20
    ||| u == 0x85
    ||| u == 0xA0
    ||| u == 0x1680
    ||| 0x2000 <= u <= 0x200A
    ||| u == 0x2028
    ||| u == 0x2029
    ||| u == 0x202F
    ||| u == 0x205F
    ||| u == 0x3000
}

/// Whether `c` is a Unicode white-space character.
pub fn is_whitespace(c: char) -> (r: bool)
    ensures
        r == spec_is_whitespace(c),
{
    let u = c as u32;
    (0x09 <= u && u <= 0x0D) || u == 0x20 || u == 0x85 || u == 0xA0 || u == 0x1680 || (0x2000
        <= u && u <= 0x200A) || u == 0x2028 || u == 0x2029 || u == 0x202F || u == 0x205F || u
        == 0x3000
}

/// Length in bytes of the UTF-8 encoding of `s` (what `str::len` reports).
pub open spec fn byte_len(s: Seq<char>) -> usize {
    vstd::utf8::encode_utf8(s).len() as usize
}

/// Number of leading white-space characters of `s`.
pub open spec fn leading_ws(s: Seq<char>) -> nat
    decreases s.len(),
{
    if s.len() > 0 && spec_is_whitespace(s[0]) {
        1 + leading_ws(s.drop_first())
    } else {
        0
    }
}

/// Number of trailing white-space characters of `s`.
pub open spec fn trailing_ws(s: Seq<char>) -> nat
    decreases s.len(),
{
    if s.len() > 0 && spec_is_whitespace(s.last()) {
        1 + trailing_ws(s.drop_last())
    } else {
        0
    }
}

/// `s` without its leading and trailing white space (what `str::trim` returns).
pub open spec fn spec_trim(s: Seq<char>) -> Seq<char> {
    let lead = leading_ws(s);
    let rest = s.skip(lead as int);
    rest.take(rest.len() - trailing_ws(rest))
}

/// The leading white space of `s` is white space, and what follows it (if anything) is not.
pub proof fn lemma_leading_ws_bounds(s: Seq<char>)
    ensures
        leading_ws(s) <= s.len(),
        forall|i: int| 0 <= i < leading_ws(s) ==> spec_is_whitespace(#[trigger] s[i]),
        leading_ws(s) < s.len() ==> !spec_is_whitespace(s[leading_ws(s) as int]),
    decreases s.len(),
{
    if s.len() > 0 && spec_is_whitespace(s[0]) {
        let d = s.drop_first();
        lemma_leading_ws_bounds(d);
        assert forall|i: int| 0 <= i < leading_ws(s) implies spec_is_whitespace(#[trigger] s[i]) by {
            if i > 0 {
                assert(s[i] == d[i - 1]);
            }
        }
        if leading_ws(s) < s.len() {
            assert(s[leading_ws(s) as int] == d[leading_ws(d) as int]);
        }
    }
}

/// The trailing white space of `s` is white space, and what precedes it (if anything)
/// is not.
pub proof fn lemma_trailing_ws_bounds(s: Seq<char>)
    ensures
        trailing_ws(s) <= s.len(),
        trailing_ws(s) < s.len() ==> !spec_is_whitespace(s[s.len() - trailing_ws(s) - 1]),
    decreases s.len(),
{
    if s.len() > 0 && spec_is_whitespace(s.last()) {
        let d = s.drop_last();
        lemma_trailing_ws_bounds(d);
        if trailing_ws(s) < s.len() {
            assert(s[s.len() - trailing_ws(s) - 1] == d[d.len() - trailing_ws(d) - 1]);
        }
    }
}

/// A trimmed text neither begins nor ends with white space.
pub proof fn lemma_trim_edges(s: Seq<char>)
    ensures
        spec_trim(s).len() > 0 ==> !spec_is_whitespace(spec_trim(s)[0]) && !spec_is_whitespace(
            spec_trim(s).last(),
        ),
{
    lemma_leading_ws_bounds(s);
    let lead = leading_ws(s);
    let rest = s.skip(lead as int);
    lemma_trailing_ws_bounds(rest);
    if spec_trim(s).len() > 0 {
        assert(spec_trim(s)[0] == s[lead as int]);
        assert(spec_trim(s).last() == rest[rest.len() - trailing_ws(rest) - 1]);
    }
}

/// A text that neither begins nor ends with white space is its own trim.
pub proof fn lemma_trim_of_trimmed(t: Seq<char>)
    requires
        t.len() > 0 ==> !spec_is_whitespace(t[0]) && !spec_is_whitespace(t.last()),
    ensures
        spec_trim(t) == t,
{
    assert(leading_ws(t) == 0);
    assert(t.skip(0) =~= t);
    assert(trailing_ws(t) == 0);
    assert(t.take(t.len() as int) =~= t);
}

/// The characters of `s`, one by one.
pub fn chars_of(s: &str) -> (v: Vec<char>)
    ensures
        v@ == s@,
{
    let n = s.unicode_len();
    let mut v: Vec<char> = Vec::new();
    let mut i: usize = 0;
    while i < n
        invariant
            n == s@.len(),
            i <= n,
            v@ == s@.take(i as int),
        decreases n - i,
    {
        v.push(s.get_char(i));
        i = i + 1;
        assert(v@ =~= s@.take(i as int));
    }
    assert(v@ =~= s@);
    v
}

/// `s` without leading and trailing white space.
pub fn trim(s: &str) -> (r: &str)
    ensures
        r@ == spec_trim(s@),
{
    let v = chars_of(s);
    let n = v.len();
    let mut i: usize = 0;
    assert(s@.skip(0) =~= s@);
    while i < n && is_whitespace(v[i])
        invariant
            n == s@.len(),
            v@ == s@,
            i <= n,
            leading_ws(s@) == i + leading_ws(s@.skip(i as int)),
        decreases n - i,
    {
        assert(s@.skip(i as int).drop_first() =~= s@.skip(i + 1));
        i = i + 1;
    }
    let ghost rest = s@.skip(i as int);
    assert(leading_ws(rest) == 0) by {
        if i < n {
            assert(rest[0] == s@[i as int]);
        }
    }
    let mut j: usize = n;
    assert(rest.take(n - i) =~= rest);
    while j > i && is_whitespace(v[j - 1])
        invariant
            n == s@.len(),
            v@ == s@,
            i <= j <= n,
            rest == s@.skip(i as int),
            trailing_ws(rest) == (n - j) + trailing_ws(rest.take(j - i)),
        decreases j,
    {
        assert(rest.take(j - i).drop_last() =~= rest.take(j - 1 - i));
        assert(rest.take(j - i).last() == s@[j - 1]);
        j = j - 1;
    }
    assert(trailing_ws(rest.take(j - i)) == 0) by {
        if j > i {
            assert(rest.take(j - i).last() == s@[j - 1]);
        }
    }
    assert(rest.take(j - i) =~= s@.subrange(i as int, j as int));
    s.substring_char(i, j)
}

/// ASCII upper-casing of one character (`char::to_ascii_uppercase`).
pub open spec fn spec_ascii_upper(c: char) -> char {
    if 'a' <= c && c <= 'z' {
        ((c as u32) - 32) as char
    } else {
        c
    }
}

/// ASCII lower-casing of one character (`char::to_ascii_lowercase`).
pub open spec fn spec_ascii_lower(c: char) -> char {
    if 'A' <= c && c <= 'Z' {
        ((c as u32) + 32) as char
    } else {
        c
    }
}

/// Maps `a`..`z` to `A`..`Z` and leaves every other character unchanged.
pub fn ascii_upper(c: char) -> (r: char)
    ensures
        r == spec_ascii_upper(c),
{
    if 'a' <= c && c <= 'z' {
        let b = (c as u32 - 32) as u8;
        b as char
    } else {
        c
    }
}

/// Maps `A`..`Z` to `a`..`z` and leaves every other character unchanged.
pub fn ascii_lower(c: char) -> (r: char)
    ensures
        r == spec_ascii_lower(c),
{
    if 'A' <= c && c <= 'Z' {
        let b = (c as u32 + 32) as u8;
        b as char
    } else {
        c
    }
}

/// ASCII letters and digits.
pub open spec fn spec_ascii_alnum(c: char) -> bool {
    ('a' <= c && c <= 'z') || ('A' <= c && c <= 'Z') || ('0' <= c && c <= '9')
}

/// Whether `c` has the Unicode `Alphabetic` or `Numeric` property (`char::is_alphanumeric`).
pub uninterp spec fn unicode_alphanumeric(c: char) -> bool;

/// Unicode lower-case mapping of a string (`str::to_lowercase`).
pub uninterp spec fn unicode_lowercase(s: Seq<char>) -> Seq<char>;

/// Unicode upper-case mapping of a string (`str::to_uppercase`).
pub uninterp spec fn unicode_uppercase(s: Seq<char>) -> Seq<char>;

/// Whether every character of `s` is ASCII.
pub open spec fn all_ascii(s: Seq<char>) -> bool {
    forall|i: int| 0 <= i < s.len() ==> (s[i] as u32) < 0x80
}

/// Calls `char::is_alphanumeric`. Claimed: the result is the character's Unicode
/// alphabetic-or-numeric property, which on ASCII is exactly the letters and digits.
#[verifier::external_body]
pub(crate) fn is_alphanumeric(c: char) -> (r: bool)
    ensures
        r == unicode_alphanumeric(c),
        (c as u32) < 0x80 ==> (r <==> spec_ascii_alnum(c)),
{
    c.is_alphanumeric()
}

/// Calls `str::to_lowercase`. Claimed: the result is the Unicode lower-case mapping
/// of the input, which on an all-ASCII input lower-cases each character on its own.
#[verifier::external_body]
pub(crate) fn to_lowercase(s: &str) -> (r: String)
    ensures
        r@ == unicode_lowercase(s@),
        all_ascii(s@) ==> r@ == s@.map_values(|c: char| spec_ascii_lower(c)),
{
    s.to_lowercase()
}

/// Calls `str::to_uppercase`. Claimed: the result is the Unicode upper-case mapping
/// of the input, which on an all-ASCII input upper-cases each character on its own.
#[verifier::external_body]
pub(crate) fn to_uppercase(s: &str) -> (r: String)
    ensures
        r@ == unicode_uppercase(s@),
        all_ascii(s@) ==> r@ == s@.map_values(|c: char| spec_ascii_upper(c)),
{
    s.to_uppercase()
}

/// Calls `String::push`: appends one character.
#[verifier::external_body]
pub(crate) fn push_char(s: &mut String, c: char)
    ensures
        final(s)@ == old(s)@.push(c),
{
    s.push(c)
}

/// A string holding exactly the given characters.
pub fn string_from_chars(v: &[char]) -> (r: String)
    ensures
        r@ == v@,
{
    let mut r = String::new();
    let mut i: usize = 0;
    while i < v.len()
        invariant
            i <= v@.len(),
            r@ == v@.take(i as int),
        decreases v@.len() - i,
    {
        push_char(&mut r, v[i]);
        i = i + 1;
        assert(r@ =~= v@.take(i as int));
    }
    assert(v@.take(v@.len() as int) =~= v@);
    r
}

/// The character of a decimal or hexadecimal digit value (`0`..`9`, then `a`..`f`).
pub open spec fn digit_char(d: nat) -> char {
    if d < 10 {
        (48 + d) as char
    } else {
        (87 + d) as char
    }
}

/// Digit character of `d < 16`.
pub fn digit(d: u64) -> (c: char)
    requires
        d < 16,
    ensures
        c == digit_char(d as nat),
{
    if d < 10 {
        ((48 + d) as u8) as char
    } else {
        ((87 + d) as u8) as char
    }
}

/// Base-`b` digits of `n`, most significant first, without leading zeros.
pub open spec fn spec_digits(n: nat, b: nat) -> Seq<char>
    decreases n,
{
    if b < 2 {
        seq![]
    } else if n < b {
        seq![digit_char(n)]
    } else {
        proof {
            vstd::arithmetic::div_mod::lemma_div_decreases(n as int, b as int);
        }
        spec_digits(n / b, b).push(digit_char(n % b))
    }
}

/// Decimal text of an unsigned number (`u64`'s `Display`).
pub open spec fn spec_decimal(n: nat) -> Seq<char> {
    spec_digits(n, 10)
}

/// Decimal text of a signed number (`i64`'s `Display`).
pub open spec fn spec_signed_decimal(n: int) -> Seq<char> {
    if n < 0 {
        seq!['-'] + spec_decimal((-n) as nat)
    } else {
        spec_decimal(n as nat)
    }
}

/// Lower-case hexadecimal text of a number (`{:x}`).
pub open spec fn spec_hex(n: nat) -> Seq<char> {
    spec_digits(n, 16)
}

/// Appends the base-`b` digits of `n`.
pub fn append_digits(s: &mut String, n: u64, b: u64)
    requires
        b == 10 || b == 16,
    ensures
        final(s)@ == old(s)@ + spec_digits(n as nat, b as nat),
    decreases n,
{
    if n >= b {
        append_digits(s, n / b, b);
    }
    push_char(s, digit(n % b));
}

/// Appends the decimal text of `n`.
pub fn append_decimal(s: &mut String, n: u64)
    ensures
        final(s)@ == old(s)@ + spec_decimal(n as nat),
{
    append_digits(s, n, 10);
}

/// Appends the decimal text of a signed `n`.
pub fn append_signed_decimal(s: &mut String, n: i64)
    ensures
        final(s)@ == old(s)@ + spec_signed_decimal(n as int),
{
    if n < 0 {
        push_char(s, '-');
        let m: u64 = (-(n as i128)) as u64;
        append_decimal(s, m);
        assert(final(s)@ =~= old(s)@ + spec_signed_decimal(n as int));
    } else {
        append_decimal(s, n as u64);
    }
}

/// Appends the lower-case hexadecimal text of `n`.
pub fn append_hex(s: &mut String, n: u64)
    ensures
        final(s)@ == old(s)@ + spec_hex(n as nat),
{
    append_digits(s, n, 16);
}

/// `s` without `prefix`, when `s` starts with it (what `str::strip_prefix` gives).
pub fn strip_prefix<'a>(s: &'a str, prefix: &str) -> (r: Option<&'a str>)
    ensures
        r is Some <==> (prefix@.len() <= s@.len() && s@.take(prefix@.len() as int) == prefix@),
        r matches Some(rest) ==> rest@ == s@.skip(prefix@.len() as int),
{
    let n = s.unicode_len();
    let m = prefix.unicode_len();
    if m > n {
        return None;
    }
    let mut i: usize = 0;
    while i < m
        invariant
            n == s@.len(),
            m == prefix@.len(),
            m <= n,
            i <= m,
            forall|j: int| 0 <= j < i ==> s@[j] == prefix@[j],
        decreases m - i,
    {
        if s.get_char(i) != prefix.get_char(i) {
            assert(s@.take(m as int)[i as int] != prefix@[i as int]);
            return None;
        }
        i = i + 1;
    }
    assert(s@.take(m as int) =~= prefix@);
    assert(s@.subrange(m as int, n as int) =~= s@.skip(m as int));
    Some(s.substring_char(m, n))
}

/// Whether `a` and `b` hold the same characters.
pub fn str_eq(a: &str, b: &str) -> (r: bool)
    ensures
        r == (a@ == b@),
{
    String::from_str(a) == String::from_str(b)
}

/// Whether `c` is an ASCII decimal digit.
pub open spec fn is_digit(c: char) -> bool {
    '0' <= c && c <= '9'
}

/// Whether every character of `s` is a decimal digit.
pub open spec fn all_digits(s: Seq<char>) -> bool {
    forall|i: int| 0 <= i < s.len() ==> is_digit(#[trigger] s[i])
}

/// Value of a run of decimal digits.
pub open spec fn digits_value(s: Seq<char>) -> nat
    decreases s.len(),
{
    if s.len() == 0 {
        0
    } else {
        digits_value(s.drop_last()) * 10 + ((s.last() as u32) - 48) as nat
    }
}

/// What `str::parse::<u16>` gives: an optional `+`, then one or more ASCII digits
/// whose value fits in 16 bits.
pub open spec fn spec_parse_u16(s: Seq<char>) -> Option<u16> {
    let d = if s.len() > 0 && s[0] == '+' {
        s.drop_first()
    } else {
        s
    };
    if d.len() == 0 || !all_digits(d) {
        None
    } else if digits_value(d) > 65535 {
        None
    } else {
        Some(digits_value(d) as u16)
    }
}

/// Parses an unsigned 16-bit decimal number the way `str::parse::<u16>` does.
#[verifier::spinoff_prover]
#[verifier::rlimit(40)]
pub fn parse_u16(s: &str) -> (r: Option<u16>)
    ensures
        r == spec_parse_u16(s@),
{
    let v = chars_of(s);
    let n = v.len();
    let start: usize = if n > 0 && v[0] == '+' { 1 } else { 0 };
    let ghost d = if s@.len() > 0 && s@[0] == '+' { s@.drop_first() } else { s@ };
    assert(d =~= s@.skip(start as int));
    if start >= n {
        return None;
    }
    let mut acc: u32 = 0;
    let mut i: usize = start;
    assert(d.take(0) =~= Seq::<char>::empty());
    while i < n
        invariant
            v@ == s@,
            n == s@.len(),
            start <= i <= n,
            d == s@.skip(start as int),
            d == (if s@.len() > 0 && s@[0] == '+' { s@.drop_first() } else { s@ }),
            forall|j: int| 0 <= j < i - start ==> is_digit(#[trigger] d[j]),
            acc as nat == if digits_value(d.take(i - start)) > 65535 { 65536 } else { digits_value(d.take(i - start)) },
        decreases n - i,
    {
        let c = v[i];
        if !('0' <= c && c <= '9') {
            assert(d.len() == n - start);
            assert(d[i - start] == c);
            assert(!is_digit(d[i - start]));
            assert(!all_digits(d));
            return None;
        }
        let ghost prefix = d.take(i - start);
        assert(d.take(i + 1 - start).drop_last() =~= prefix);
        assert(d.take(i + 1 - start).last() == c);
        let dv = (c as u32) - 48;
        assert(digits_value(d.take(i + 1 - start)) == digits_value(prefix) * 10 + dv);
        if acc > 65535 {
            acc = 65536;
        } else {
            acc = acc * 10 + dv;
            if acc > 65535 {
                acc = 65536;
            }
        }
        i = i + 1;
    }
    assert(d.take(n - start) =~= d);
    if acc > 65535 {
        None
    } else {
        Some(acc as u16)
    }
}

}
