//! Identifiers: UUIDs held as 128-bit integers, their canonical text, and fresh ones.
use vstd::prelude::*;
use crate::text::{digit, digit_char, push_char};
use vstd::arithmetic::div_mod::lemma_small_mod;

verus! {

/// The last `w` hexadecimal digits of `n`, zero-padded, most significant first.
pub open spec fn spec_hex_fixed(n: nat, w: nat) -> Seq<char>
    decreases w,
{
    if w == 0 {
        seq![]
    } else {
        spec_hex_fixed(n / 16, (w - 1) as nat).push(digit_char(n % 16))
    }
}

/// Canonical hyphenated lower-case text of a UUID: `8-4-4-4-12` hexadecimal digits.
pub open spec fn spec_uuid_text(u: u128) -> Seq<char> {
    let n = u as nat;
    spec_hex_fixed(n / 0x1_0000_0000_0000_0000_0000_0000, 8) + seq!['-'] + spec_hex_fixed(
        (n / 0x1_0000_0000_0000_0000_0000) % 0x1_0000,
        4,
    ) + seq!['-'] + spec_hex_fixed((n / 0x1_0000_0000_0000_0000) % 0x1_0000, 4) + seq!['-']
        + spec_hex_fixed((n / 0x1_0000_0000_0000) % 0x1_0000, 4) + seq!['-'] + spec_hex_fixed(
        n % 0x1_0000_0000_0000,
        12,
    )
}

/// Appends the last `w` hexadecimal digits of `n`, zero-padded.
pub fn append_hex_fixed(s: &mut String, n: u128, w: u64)
    ensures
        final(s)@ == old(s)@ + spec_hex_fixed(n as nat, w as nat),
    decreases w,
{
    if w > 0 {
        append_hex_fixed(s, n / 16, w - 1);
        push_char(s, digit((n % 16) as u64));
    }
}

/// Appends the canonical text of a UUID.
pub fn append_uuid(s: &mut String, u: u128)
    ensures
        final(s)@ == old(s)@ + spec_uuid_text(u),
{
    append_hex_fixed(s, u / 0x1_0000_0000_0000_0000_0000_0000, 8);
    push_char(s, '-');
    append_hex_fixed(s, (u / 0x1_0000_0000_0000_0000_0000) % 0x1_0000, 4);
    push_char(s, '-');
    append_hex_fixed(s, (u / 0x1_0000_0000_0000_0000) % 0x1_0000, 4);
    push_char(s, '-');
    append_hex_fixed(s, (u / 0x1_0000_0000_0000) % 0x1_0000, 4);
    push_char(s, '-');
    append_hex_fixed(s, u % 0x1_0000_0000_0000, 12);
    assert(final(s)@ =~= old(s)@ + spec_uuid_text(u));
}

/// The canonical text of a UUID (what `Uuid::to_string` gives).
pub fn uuid_to_string(u: u128) -> (r: String)
    ensures
        r@ == spec_uuid_text(u),
{
    let mut r = String::new();
    append_uuid(&mut r, u);
    assert(r@ =~= spec_uuid_text(u));
    r
}

/// Whether `u` carries the version-4 and RFC 4122 variant bits of a random UUID.
pub open spec fn is_v4(u: u128) -> bool {
    (u as nat / 0x1000_0000_0000_0000_0000) % 16 == 4 && (u as nat / 0x4000_0000_0000_0000)
        % 4 == 2
}

/// Calls `uuid::Uuid::new_v4`. Claimed: the value is random; of every outcome only
/// that it carries the version-4 and variant bits.
#[verifier::external_body]
pub(crate) fn new_uuid() -> (r: u128)
    ensures
        is_v4(r),
{
    uuid::Uuid::new_v4().as_u128()
}

/// What `uuid::Uuid::parse_str` makes of a text: the UUID, or `None` when it is rejected.
pub uninterp spec fn parsed_uuid(s: Seq<char>) -> Option<u128>;

/// Calls `uuid::Uuid::parse_str`. Claimed: the result is a function of the text, and the
/// canonical hyphenated text of any UUID parses back to that UUID.
#[verifier::external_body]
pub(crate) fn parse_uuid(s: &str) -> (r: Option<u128>)
    ensures
        r == parsed_uuid(s@),
        forall|u: u128| s@ == #[trigger] spec_uuid_text(u) ==> r == Some(u),
{
    uuid::Uuid::parse_str(s).ok().map(|u| u.as_u128())
}

/// `16^w`.
pub open spec fn pow16(w: nat) -> nat
    decreases w,
{
    if w == 0 {
        1
    } else {
        16 * pow16((w - 1) as nat)
    }
}

/// `w` hexadecimal digits are `w` characters.
pub proof fn lemma_hex_fixed_len(n: nat, w: nat)
    ensures
        spec_hex_fixed(n, w).len() == w,
    decreases w,
{
    if w > 0 {
        lemma_hex_fixed_len(n / 16, (w - 1) as nat);
    }
}

/// The last `w` hexadecimal digits determine a number modulo `16^w`.
pub proof fn lemma_hex_fixed_injective(n: nat, m: nat, w: nat)
    requires
        spec_hex_fixed(n, w) == spec_hex_fixed(m, w),
    ensures
        n % pow16(w) == m % pow16(w),
    decreases w,
{
    if w > 0 {
        let a = spec_hex_fixed(n / 16, (w - 1) as nat);
        let b = spec_hex_fixed(m / 16, (w - 1) as nat);
        assert(spec_hex_fixed(n, w) == a.push(digit_char(n % 16)));
        assert(spec_hex_fixed(m, w) == b.push(digit_char(m % 16)));
        assert(a == spec_hex_fixed(n, w).drop_last());
        assert(b == spec_hex_fixed(m, w).drop_last());
        lemma_hex_fixed_injective(n / 16, m / 16, (w - 1) as nat);
        assert(digit_char(n % 16) == spec_hex_fixed(n, w).last());
        assert(n % 16 == m % 16) by {
            let x = n % 16;
            let y = m % 16;
            assert(digit_char(x) == digit_char(y));
            assert(x < 16 && y < 16);
        }
        let k = pow16((w - 1) as nat);
        assert(k > 0) by {
            lemma_pow16_positive((w - 1) as nat);
        }
        vstd::arithmetic::div_mod::lemma_mod_breakdown(n as int, 16, k as int);
        vstd::arithmetic::div_mod::lemma_mod_breakdown(m as int, 16, k as int);
    }
}

/// `16^w` is positive.
pub proof fn lemma_pow16_positive(w: nat)
    ensures
        pow16(w) > 0,
    decreases w,
{
    if w > 0 {
        lemma_pow16_positive((w - 1) as nat);
    }
}

/// The text of a UUID has 36 characters.
pub proof fn lemma_uuid_text_len(u: u128)
    ensures
        spec_uuid_text(u).len() == 36,
{
    let n = u as nat;
    lemma_hex_fixed_len(n / 0x1_0000_0000_0000_0000_0000_0000, 8);
    lemma_hex_fixed_len((n / 0x1_0000_0000_0000_0000_0000) % 0x1_0000, 4);
    lemma_hex_fixed_len((n / 0x1_0000_0000_0000_0000) % 0x1_0000, 4);
    lemma_hex_fixed_len((n / 0x1_0000_0000_0000) % 0x1_0000, 4);
    lemma_hex_fixed_len(n % 0x1_0000_0000_0000, 12);
}

/// The five hexadecimal groups of a UUID's text, as the numbers they spell.
pub open spec fn uuid_groups(u: u128) -> (nat, nat, nat, nat, nat) {
    let n = u as nat;
    (
        n / 0x1_0000_0000_0000_0000_0000_0000,
        (n / 0x1_0000_0000_0000_0000_0000) % 0x1_0000,
        (n / 0x1_0000_0000_0000_0000) % 0x1_0000,
        (n / 0x1_0000_0000_0000) % 0x1_0000,
        n % 0x1_0000_0000_0000,
    )
}

/// Where each group stands in a UUID's text.
proof fn lemma_uuid_text_groups(u: u128)
    ensures
        spec_uuid_text(u).len() == 36,
        spec_uuid_text(u).subrange(0, 8) == spec_hex_fixed(uuid_groups(u).0, 8),
        spec_uuid_text(u).subrange(9, 13) == spec_hex_fixed(uuid_groups(u).1, 4),
        spec_uuid_text(u).subrange(14, 18) == spec_hex_fixed(uuid_groups(u).2, 4),
        spec_uuid_text(u).subrange(19, 23) == spec_hex_fixed(uuid_groups(u).3, 4),
        spec_uuid_text(u).subrange(24, 36) == spec_hex_fixed(uuid_groups(u).4, 12),
{
    let g = uuid_groups(u);
    lemma_hex_fixed_len(g.0, 8);
    lemma_hex_fixed_len(g.1, 4);
    lemma_hex_fixed_len(g.2, 4);
    lemma_hex_fixed_len(g.3, 4);
    lemma_hex_fixed_len(g.4, 12);
    let t = spec_uuid_text(u);
    assert(t.subrange(0, 8) =~= spec_hex_fixed(g.0, 8));
    assert(t.subrange(9, 13) =~= spec_hex_fixed(g.1, 4));
    assert(t.subrange(14, 18) =~= spec_hex_fixed(g.2, 4));
    assert(t.subrange(19, 23) =~= spec_hex_fixed(g.3, 4));
    assert(t.subrange(24, 36) =~= spec_hex_fixed(g.4, 12));
}

/// Each group is below `16` to the power of its width.
proof fn lemma_uuid_groups_bounded(u: u128)
    ensures
        uuid_groups(u).0 < pow16(8),
        uuid_groups(u).1 < pow16(4),
        uuid_groups(u).2 < pow16(4),
        uuid_groups(u).3 < pow16(4),
        uuid_groups(u).4 < pow16(12),
{
    reveal_with_fuel(pow16, 13);
    let n = u as nat;
    assert(n / 0x1_0000_0000_0000_0000_0000_0000 < 0x1_0000_0000) by (nonlinear_arith)
        requires
            n < 0x1_0000_0000_0000_0000_0000_0000_0000_0000,
    ;
}

/// Distinct UUIDs have distinct texts.
pub proof fn lemma_uuid_text_injective(u: u128, v: u128)
    requires
        spec_uuid_text(u) == spec_uuid_text(v),
    ensures
        u == v,
{
    lemma_uuid_text_groups(u);
    lemma_uuid_text_groups(v);
    lemma_uuid_groups_bounded(u);
    lemma_uuid_groups_bounded(v);
    let a = uuid_groups(u);
    let b = uuid_groups(v);
    lemma_hex_fixed_injective(a.0, b.0, 8);
    lemma_hex_fixed_injective(a.1, b.1, 4);
    lemma_hex_fixed_injective(a.2, b.2, 4);
    lemma_hex_fixed_injective(a.3, b.3, 4);
    lemma_hex_fixed_injective(a.4, b.4, 12);
    lemma_small_mod(a.0, pow16(8));
    lemma_small_mod(b.0, pow16(8));
    lemma_small_mod(a.1, pow16(4));
    lemma_small_mod(b.1, pow16(4));
    lemma_small_mod(a.2, pow16(4));
    lemma_small_mod(b.2, pow16(4));
    lemma_small_mod(a.3, pow16(4));
    lemma_small_mod(b.3, pow16(4));
    lemma_small_mod(a.4, pow16(12));
    lemma_small_mod(b.4, pow16(12));
    assert(a == b);
    assert(u == v) by (bit_vector)
        requires
            u / 0x1_0000_0000_0000_0000_0000_0000 == v / 0x1_0000_0000_0000_0000_0000_0000,
            (u / 0x1_0000_0000_0000_0000_0000) % 0x1_0000 == (v / 0x1_0000_0000_0000_0000_0000) % 0x1_0000,
            (u / 0x1_0000_0000_0000_0000) % 0x1_0000 == (v / 0x1_0000_0000_0000_0000) % 0x1_0000,
            (u / 0x1_0000_0000_0000) % 0x1_0000 == (v / 0x1_0000_0000_0000) % 0x1_0000,
            u % 0x1_0000_0000_0000 == v % 0x1_0000_0000_0000,
    ;
}

}
