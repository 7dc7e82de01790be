//! Text of UUIDs, as the `uuid` crate prints them.

use vstd::prelude::*;
use vstd::arithmetic::power2::{pow2, lemma_pow2_pos, lemma_pow2_adds, lemma2_to64};
use vstd::arithmetic::div_mod::{lemma_div_denominator, lemma_fundamental_div_mod, lemma_small_mod, lemma_mod_bound};

verus! {

/// A lower-case hexadecimal digit.
pub open spec fn hex_lower(d: int) -> char {
    if d < 10 {
        (48 + d) as char
    } else {
        (87 + d) as char
    }
}

/// The `k`-th hex digit (from the most significant) of a 128-bit value.
pub open spec fn nibble(v: u128, k: int) -> int {
    (v as int / pow2((4 * (31 - k)) as nat) as int) % 16
}

/// The hyphenated lower-case form `xxxxxxxx-xxxx-xxxx-xxxx-xxxxxxxxxxxx` of a
/// UUID whose big-endian value is `v`.
pub open spec fn uuid_text_spec(v: u128) -> Seq<char> {
    Seq::new(
        36,
        |i: int|
            if i == 8 || i == 13 || i == 18 || i == 23 {
                '-'
            } else {
                let k = if i < 8 {
                    i
                } else if i < 13 {
                    i - 1
                } else if i < 18 {
                    i - 2
                } else if i < 23 {
                    i - 3
                } else {
                    i - 4
                };
                hex_lower(nibble(v, k))
            },
    )
}

/// The value of the first `k + 1` hex digits of `v`.
spec fn leading(v: u128, k: int) -> int {
    v as int / pow2((4 * (31 - k)) as nat) as int
}

proof fn lemma_leading_step(v: u128, k: int)
    requires
        0 <= k < 31,
    ensures
        leading(v, k + 1) == leading(v, k) * 16 + nibble(v, k + 1),
{
    let m: nat = (4 * (30 - k)) as nat;
    lemma_pow2_pos(m);
    lemma_pow2_adds(m, 4);
    lemma2_to64();
    assert((4 * (31 - k)) as nat == m + 4);
    let x = v as int / pow2(m) as int;
    assert(leading(v, k + 1) == x);
    lemma_div_denominator(v as int, pow2(m) as int, 16);
    assert(leading(v, k) == x / 16);
    lemma_fundamental_div_mod(x, 16);
    assert(nibble(v, k + 1) == x % 16);
}

proof fn lemma_leading_first(v: u128)
    ensures
        leading(v, 0) == nibble(v, 0),
{
    lemma2_to64();
    lemma_pow2_adds(64, 60);
    lemma_pow2_adds(124, 4);
    lemma_pow2_pos(124);
    let p = pow2(124) as int;
    assert(pow2(128) as int == p * 16);
    assert(pow2(128) as int == 0x1_0000_0000_0000_0000_0000_0000_0000_0000) by {
        lemma_pow2_adds(64, 64);
    }
    let x = v as int / p;
    assert(x < 16) by {
        lemma_fundamental_div_mod(v as int, p);
        assert(v as int % p >= 0) by {
            vstd::arithmetic::div_mod::lemma_mod_bound(v as int, p);
        }
        assert(p * x <= v as int);
        assert((v as int) < p * 16);
        assert(x < 16) by (nonlinear_arith)
            requires
                p > 0,
                p * x <= v as int,
                (v as int) < p * 16,
        ;
    }
    assert(x >= 0) by {
        vstd::arithmetic::div_mod::lemma_div_pos_is_pos(v as int, p);
    }
    lemma_small_mod(x as nat, 16);
}

proof fn lemma_leading_equal(a: u128, b: u128, k: int)
    requires
        0 <= k < 32,
        forall|j: int| 0 <= j < 32 ==> #[trigger] nibble(a, j) == nibble(b, j),
    ensures
        leading(a, k) == leading(b, k),
    decreases k,
{
    if k == 0 {
        lemma_leading_first(a);
        lemma_leading_first(b);
        assert(nibble(a, 0) == nibble(b, 0));
    } else {
        lemma_leading_equal(a, b, k - 1);
        lemma_leading_step(a, k - 1);
        lemma_leading_step(b, k - 1);
        assert(nibble(a, k) == nibble(b, k));
    }
}

proof fn lemma_hex_lower_injective(d: int, e: int)
    requires
        0 <= d < 16,
        0 <= e < 16,
        hex_lower(d) == hex_lower(e),
    ensures
        d == e,
{
    assert((hex_lower(d) as int) == (if d < 10 { 48 + d } else { 87 + d }));
    assert((hex_lower(e) as int) == (if e < 10 { 48 + e } else { 87 + e }));
}

/// Different UUIDs have different texts.
pub proof fn lemma_uuid_text_injective(a: u128, b: u128)
    requires
        uuid_text_spec(a) == uuid_text_spec(b),
    ensures
        a == b,
{
    assert forall|k: int| 0 <= k < 32 implies #[trigger] nibble(a, k) == nibble(b, k) by {
        let i = if k < 8 {
            k
        } else if k < 12 {
            k + 1
        } else if k < 16 {
            k + 2
        } else if k < 20 {
            k + 3
        } else {
            k + 4
        };
        assert(uuid_text_spec(a)[i] == hex_lower(nibble(a, k)));
        assert(uuid_text_spec(b)[i] == hex_lower(nibble(b, k)));
        lemma_pow2_pos((4 * (31 - k)) as nat);
        lemma_mod_bound(a as int / pow2((4 * (31 - k)) as nat) as int, 16);
        lemma_mod_bound(b as int / pow2((4 * (31 - k)) as nat) as int, 16);
        lemma_hex_lower_injective(nibble(a, k), nibble(b, k));
    }
    lemma_leading_equal(a, b, 31);
    assert(pow2(0) == 1) by {
        lemma2_to64();
    }
    assert((4 * (31 - 31int)) as nat == 0nat);
    assert(a as int / 1int == a as int);
    assert(b as int / 1int == b as int);
    assert(leading(a, 31) == a as int);
    assert(leading(b, 31) == b as int);
}

/// `uuid::Uuid::from_u128(v).to_string()`: the hyphenated lower-case text of
/// the UUID whose big-endian value is `v`.
#[verifier::external_body]
pub(crate) fn uuid_text(v: u128) -> (s: String)
    ensures
        s@ == uuid_text_spec(v),
{
    uuid::Uuid::from_u128(v).to_string()
}

/// What `uuid::Uuid::parse_str` reads from a text: the UUID's 128-bit value,
/// or nothing when the text is not a UUID in one of the forms it accepts.
pub uninterp spec fn uuid_parse(s: Seq<char>) -> Option<u128>;

/// A text whose length alone makes `uuid::Uuid::parse_str` refuse it: the
/// parser takes only inputs of 32, 36, 38 or 45 bytes. A text of fewer than
/// 8 characters has fewer than 32 bytes, one of more than 45 characters more
/// than 45 bytes, and an ASCII text as many bytes as characters.
pub open spec fn uuid_length_refused(s: Seq<char>) -> bool {
    ||| s.len() < 8
    ||| s.len() > 45
    ||| (forall|i: int| 0 <= i < s.len() ==> (#[trigger] s[i] as int) < 128) && !(s.len() == 32
        || s.len() == 36 || s.len() == 38 || s.len() == 45)
}

/// `uuid::Uuid::parse_str(s)` (which `str::parse::<Uuid>` calls), as the
/// UUID's 128-bit value. The result is named; what is stated of it is that
/// the hyphenated lower-case text of a UUID reads back as that UUID, and
/// that a text of a length the parser does not take gives nothing.
#[verifier::external_body]
pub(crate) fn parse_uuid(s: &str) -> (r: Option<u128>)
    ensures
        r == uuid_parse(s@),
        forall|v: u128| s@ == uuid_text_spec(v) ==> r == Some(v),
        uuid_length_refused(s@) ==> r is None,
{
    match uuid::Uuid::parse_str(s) {
        Ok(u) => Some(u.as_u128()),
        Err(_) => None,
    }
}

} // verus!
