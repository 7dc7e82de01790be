//! Decimal formatting and parsing of integers, as Rust's `Display` and
//! `str::parse` do them.

use vstd::prelude::*;
use crate::text::{chars_of, string_of};

verus! {

/// The ASCII character of a decimal digit.
pub open spec fn digit_char(d: int) -> char {
    (48 + d) as char
}

/// Is `c` an ASCII decimal digit?
pub open spec fn is_digit(c: char) -> bool {
    '0' <= c && c <= '9'
}

/// The value of an ASCII decimal digit.
pub open spec fn digit_value(c: char) -> int {
    (c as int) - 48
}

/// The decimal representation of a natural number, without leading zeros.
pub open spec fn dec(n: nat) -> Seq<char>
    decreases n,
{
    if n < 10 {
        seq![digit_char(n as int)]
    } else {
        dec(n / 10).push(digit_char((n % 10) as int))
    }
}

/// The decimal representation of an integer, with a leading `-` when negative.
pub open spec fn fmt_int(i: int) -> Seq<char> {
    if i < 0 {
        seq!['-'] + dec((-i) as nat)
    } else {
        dec(i as nat)
    }
}

/// Every character of `s` is a decimal digit.
pub open spec fn all_digits(s: Seq<char>) -> bool {
    forall|k: int| 0 <= k < s.len() ==> #[trigger] is_digit(s[k])
}

/// The value of a string of decimal digits.
pub open spec fn digits_value(s: Seq<char>) -> int
    decreases s.len(),
{
    if s.len() == 0 {
        0
    } else {
        digits_value(s.drop_last()) * 10 + digit_value(s.last())
    }
}

/// What `str::parse` gives for an integer type of unbounded range: an
/// optional `+` or `-` followed by at least one decimal digit and nothing else.
pub open spec fn parse_int(s: Seq<char>) -> Option<int> {
    if s.len() == 0 {
        None
    } else if s[0] == '+' || s[0] == '-' {
        let rest = s.drop_first();
        if rest.len() == 0 || !all_digits(rest) {
            None
        } else if s[0] == '-' {
            Some(-digits_value(rest))
        } else {
            Some(digits_value(rest))
        }
    } else if all_digits(s) {
        Some(digits_value(s))
    } else {
        None
    }
}

/// What `str::parse::<i64>` gives: `None` on a malformed or out-of-range text.
pub open spec fn parse_i64_spec(s: Seq<char>) -> Option<i64> {
    match parse_int(s) {
        Some(v) => if i64::MIN <= v <= i64::MAX {
            Some(v as i64)
        } else {
            None
        },
        None => None,
    }
}

/// What `str::parse::<i32>` gives.
pub open spec fn parse_i32_spec(s: Seq<char>) -> Option<i32> {
    match parse_int(s) {
        Some(v) => if i32::MIN <= v <= i32::MAX {
            Some(v as i32)
        } else {
            None
        },
        None => None,
    }
}

/// What `str::parse::<u32>` gives: as for signed types, but a `-` sign is
/// refused.
pub open spec fn parse_u32_spec(s: Seq<char>) -> Option<u32> {
    if s.len() > 0 && s[0] == '-' {
        None
    } else {
        match parse_int(s) {
            Some(v) => if 0 <= v <= u32::MAX {
                Some(v as u32)
            } else {
                None
            },
            None => None,
        }
    }
}

/// Zero-padded to width two, as `{:02}` formats an integer.
pub open spec fn pad2(i: int) -> Seq<char> {
    if 0 <= i < 10 {
        seq!['0', digit_char(i)]
    } else {
        fmt_int(i)
    }
}

pub proof fn lemma_dec_digits(n: nat)
    ensures
        dec(n).len() > 0,
        all_digits(dec(n)),
        digits_value(dec(n)) == n,
        n > 0 ==> dec(n)[0] != '0',
    decreases n,
{
    if n < 10 {
        assert(dec(n).drop_last() =~= Seq::<char>::empty());
        assert(digit_value(digit_char(n as int)) == n);
        let d = dec(n);
        assert(digits_value(d) == digits_value(d.drop_last()) * 10 + digit_value(d.last()));
    } else {
        lemma_dec_digits(n / 10);
        let d = dec(n);
        assert(d.drop_last() == dec(n / 10));
        assert(d.last() == digit_char((n % 10) as int));
        assert(digit_value(digit_char((n % 10) as int)) == n % 10);
        assert(n == (n / 10) * 10 + n % 10);
        assert(digits_value(d) == digits_value(d.drop_last()) * 10 + digit_value(d.last()));
        assert(digits_value(d) == n);
        assert forall|k: int| 0 <= k < d.len() implies #[trigger] is_digit(d[k]) by {
            if k < d.len() - 1 {
                assert(d[k] == dec(n / 10)[k]);
            }
        }
        assert(d[0] == dec(n / 10)[0]);
    }
}

/// Reading back the decimal text of a 64-bit integer gives the integer.
pub proof fn lemma_parse_fmt_i64(n: i64)
    ensures
        parse_i64_spec(fmt_int(n as int)) == Some(n),
{
    if n < 0 {
        let m: nat = (-(n as int)) as nat;
        lemma_dec_digits(m);
        let s = fmt_int(n as int);
        assert(s.drop_first() == dec(m));
        assert(s[0] == '-');
    } else {
        lemma_dec_digits(n as nat);
        let s = dec(n as nat);
        assert(is_digit(s[0]));
    }
}

/// Reading back the decimal text of a 32-bit integer gives the integer.
pub proof fn lemma_parse_fmt_i32(n: i32)
    ensures
        parse_i32_spec(fmt_int(n as int)) == Some(n),
{
    if n < 0 {
        let m: nat = (-(n as int)) as nat;
        lemma_dec_digits(m);
        let s = fmt_int(n as int);
        assert(s.drop_first() == dec(m));
        assert(s[0] == '-');
    } else {
        lemma_dec_digits(n as nat);
        let s = dec(n as nat);
        assert(is_digit(s[0]));
    }
}

fn digit_to_char(d: u64) -> (c: char)
    requires
        d < 10,
    ensures
        c == digit_char(d as int),
{
    let b: u8 = (48 + d) as u8;
    b as char
}

/// Appends the decimal digits of `n` to `out`.
pub fn push_dec(n: u64, out: &mut Vec<char>)
    ensures
        final(out)@ == old(out)@ + dec(n as nat),
    decreases n,
{
    if n < 10 {
        out.push(digit_to_char(n));
    } else {
        push_dec(n / 10, out);
        out.push(digit_to_char(n % 10));
    }
}

/// Appends the decimal text of `n` (with `-` when negative) to `out`.
pub fn push_i64(n: i64, out: &mut Vec<char>)
    ensures
        final(out)@ == old(out)@ + fmt_int(n as int),
{
    if n < 0 {
        out.push('-');
        let m: u64 = (0i128 - n as i128) as u64;
        push_dec(m, out);
    } else {
        push_dec(n as u64, out);
    }
}

/// Appends `n` zero-padded to two places, as `{:02}` does.
pub fn push_pad2(n: i64, out: &mut Vec<char>)
    ensures
        final(out)@ == old(out)@ + pad2(n as int),
{
    if 0 <= n && n < 10 {
        out.push('0');
        out.push(digit_to_char(n as u64));
    } else {
        push_i64(n, out);
    }
}

proof fn lemma_digits_value_step(s: Seq<char>, i: int)
    requires
        0 <= i < s.len(),
    ensures
        digits_value(s.take(i + 1)) == digits_value(s.take(i)) * 10 + digit_value(s[i]),
{
    assert(s.take(i + 1).drop_last() == s.take(i));
}

proof fn lemma_digits_value_nonneg(s: Seq<char>)
    requires
        all_digits(s),
    ensures
        digits_value(s) >= 0,
    decreases s.len(),
{
    if s.len() > 0 {
        assert(is_digit(s[s.len() - 1]));
        lemma_digits_value_nonneg(s.drop_last());
    }
}

proof fn lemma_digits_value_grows(s: Seq<char>, i: int)
    requires
        0 <= i <= s.len(),
        all_digits(s),
    ensures
        digits_value(s) >= digits_value(s.take(i)),
    decreases s.len() - i,
{
    if i < s.len() {
        lemma_digits_value_grows(s, i + 1);
        lemma_digits_value_step(s, i);
        assert(all_digits(s.take(i))) by {
            assert forall|k: int| 0 <= k < s.take(i).len() implies #[trigger] is_digit(s.take(i)[k]) by {
                assert(is_digit(s[k]));
            }
        }
        lemma_digits_value_nonneg(s.take(i));
        assert(is_digit(s[i]));
    } else {
        assert(s.take(i) == s);
    }
}

/// Reads the digits of `s[start..]` as a magnitude; `None` when a character
/// is not a digit or when the magnitude exceeds `limit`.
fn read_magnitude(s: &Vec<char>, start: usize, limit: u64) -> (r: Option<u64>)
    requires
        start < s@.len(),
    ensures
        ({
            let rest = s@.skip(start as int);
            match r {
                Some(v) => all_digits(rest) && digits_value(rest) == v && v <= limit,
                None => !all_digits(rest) || digits_value(rest) > limit,
            }
        }),
{
    let ghost rest = s@.skip(start as int);
    let mut acc: u64 = 0;
    let mut i: usize = start;
    while i < s.len()
        invariant
            start <= i <= s@.len(),
            rest == s@.skip(start as int),
            all_digits(rest.take(i - start)),
            digits_value(rest.take(i - start)) == acc,
            acc <= limit,
        decreases s@.len() - i,
    {
        let c = s[i];
        proof {
            lemma_digits_value_step(rest, i - start);
            assert(rest[i - start] == c);
        }
        if !('0' <= c && c <= '9') {
            assert(!is_digit(rest[i - start]));
            return None;
        }
        let d: u64 = (c as u32 - 48) as u64;
        if (acc as u128) * 10 + (d as u128) > limit as u128 {
            proof {
                assert(all_digits(rest.take(i - start + 1))) by {
                    assert forall|k: int| 0 <= k < rest.take(i - start + 1).len() implies #[trigger] is_digit(rest.take(i - start + 1)[k]) by {
                        if k < i - start {
                            assert(rest.take(i - start + 1)[k] == rest.take(i - start)[k]);
                        }
                    }
                }
                assert(digits_value(rest.take(i - start + 1)) > limit);
                if all_digits(rest) {
                    lemma_digits_value_grows(rest, i - start + 1);
                }
            }
            return None;
        }
        acc = acc * 10 + d;
        i = i + 1;
        proof {
            assert(all_digits(rest.take(i - start))) by {
                assert forall|k: int| 0 <= k < rest.take(i - start).len() implies #[trigger] is_digit(rest.take(i - start)[k]) by {
                    if k < i - start - 1 {
                        assert(rest.take(i - start)[k] == rest.take(i - start - 1)[k]);
                    }
                }
            }
        }
    }
    assert(rest.take(i - start) == rest);
    Some(acc)
}


/// Reads a signed integer whose magnitude is at most `max_pos` (or `max_neg`
/// with a `-` sign); `None` for malformed text or a magnitude out of range.
fn parse_signed(s: &Vec<char>, max_pos: u64, max_neg: u64) -> (r: Option<i128>)
    ensures
        match parse_int(s@) {
            Some(v) => if -(max_neg as int) <= v <= max_pos {
                r == Some(v as i128)
            } else {
                r is None
            },
            None => r is None,
        },
{
    if s.len() == 0 {
        return None;
    }
    let c0 = s[0];
    if c0 == '+' || c0 == '-' {
        if s.len() == 1 {
            return None;
        }
        assert(s@.drop_first() == s@.skip(1));
        let limit: u64 = if c0 == '-' { max_neg } else { max_pos };
        match read_magnitude(s, 1, limit) {
            Some(m) => {
                if c0 == '-' {
                    Some(0i128 - m as i128)
                } else {
                    Some(m as i128)
                }
            },
            None => None,
        }
    } else {
        assert(s@.skip(0) == s@);
        match read_magnitude(s, 0, max_pos) {
            Some(m) => Some(m as i128),
            None => None,
        }
    }
}

/// Parses a 64-bit signed integer as `str::parse::<i64>` does.
pub fn parse_i64_chars(s: &Vec<char>) -> (r: Option<i64>)
    ensures
        r == parse_i64_spec(s@),
{
    match parse_signed(s, 0x7fff_ffff_ffff_ffff, 0x8000_0000_0000_0000) {
        Some(v) => Some(v as i64),
        None => None,
    }
}

/// Parses a 32-bit signed integer as `str::parse::<i32>` does.
pub fn parse_i32_chars(s: &Vec<char>) -> (r: Option<i32>)
    ensures
        r == parse_i32_spec(s@),
{
    match parse_signed(s, 0x7fff_ffff, 0x8000_0000) {
        Some(v) => Some(v as i32),
        None => None,
    }
}

/// Parses a 32-bit unsigned integer as `str::parse::<u32>` does.
pub fn parse_u32_chars(s: &Vec<char>) -> (r: Option<u32>)
    ensures
        r == parse_u32_spec(s@),
{
    if s.len() > 0 && s[0] == '-' {
        return None;
    }
    match parse_signed(s, 0xffff_ffff, 0) {
        Some(v) => {
            if v < 0 {
                None
            } else {
                Some(v as u32)
            }
        },
        None => None,
    }
}

/// Parses a 64-bit signed integer from text, as `str::parse::<i64>` does.
pub fn parse_i64(s: &str) -> (r: Option<i64>)
    ensures
        r == parse_i64_spec(s@),
{
    parse_i64_chars(&chars_of(s))
}

/// The decimal text of `n`, as `n.to_string()` gives it.
pub fn i64_to_string(n: i64) -> (s: String)
    ensures
        s@ == fmt_int(n as int),
{
    let mut v: Vec<char> = Vec::new();
    push_i64(n, &mut v);
    assert(v@ == fmt_int(n as int));
    string_of(&v)
}

/// Length of an optional leading `+` or `-`.
pub open spec fn sign_len(s: Seq<char>) -> int {
    if s.len() > 0 && (s[0] == '+' || s[0] == '-') {
        1
    } else {
        0
    }
}

/// Is `c` the letter `l` (lower-case ASCII) in either case?
pub open spec fn same_letter(c: char, l: char) -> bool {
    c == l || ('A' <= c <= 'Z' && (c as int) + 32 == (l as int))
}

/// Does `s` spell the lower-case word `w`, ignoring ASCII case?
pub open spec fn spells(s: Seq<char>, w: Seq<char>) -> bool {
    s.len() == w.len() && forall|i: int| 0 <= i < s.len() ==> #[trigger] same_letter(s[i], w[i])
}

/// Digits with at most one `.` among them, at least one digit.
pub open spec fn mantissa_ok(m: Seq<char>) -> bool {
    &&& forall|i: int| 0 <= i < m.len() ==> is_digit(#[trigger] m[i]) || m[i] == '.'
    &&& forall|i: int, j: int| 0 <= i < j < m.len() ==> !(#[trigger] m[i] == '.' && #[trigger] m[j] == '.')
    &&& exists|i: int| 0 <= i < m.len() && is_digit(#[trigger] m[i])
}

/// An exponent after the `e`: an optional sign and at least one digit.
pub open spec fn exponent_ok(x: Seq<char>) -> bool {
    let d = x.skip(sign_len(x));
    d.len() > 0 && all_digits(d)
}

/// Is `c` the exponent mark, `e` or `E`?
pub open spec fn is_exp_mark(c: char) -> bool {
    c == 'e' || c == 'E'
}

/// A number: a mantissa, optionally followed by `e` and an exponent.
pub open spec fn number_ok(b: Seq<char>) -> bool {
    mantissa_ok(b) || exists|k: int|
        0 <= k < b.len() && #[trigger] is_exp_mark(b[k]) && mantissa_ok(b.take(k)) && exponent_ok(
            b.skip(k + 1),
        )
}

/// The text `str::parse` accepts for the standard floating-point types, as
/// their documentation gives it: an optional sign, then `inf`, `infinity`,
/// `nan` (any case) or a number, `Digit+ | Digit+ '.' Digit* | Digit* '.'
/// Digit+`, optionally followed by `e` (any case), an optional sign and
/// digits. Nothing else, not even surrounding whitespace.
pub open spec fn decimal_number(s: Seq<char>) -> bool {
    let b = s.skip(sign_len(s));
    spells(b, seq!['i', 'n', 'f']) || spells(b, seq!['i', 'n', 'f', 'i', 'n', 'i', 't', 'y'])
        || spells(b, seq!['n', 'a', 'n']) || number_ok(b)
}

fn spells_word(s: &Vec<char>, w: &Vec<char>) -> (r: bool)
    requires
        forall|i: int| 0 <= i < w@.len() ==> 'a' <= #[trigger] w@[i] <= 'z',
    ensures
        r == spells(s@, w@),
{
    if s.len() != w.len() {
        return false;
    }
    let mut i: usize = 0;
    while i < s.len()
        invariant
            i <= s@.len(),
            s@.len() == w@.len(),
            forall|j: int| 0 <= j < w@.len() ==> 'a' <= #[trigger] w@[j] <= 'z',
            forall|j: int| 0 <= j < i ==> #[trigger] same_letter(s@[j], w@[j]),
        decreases s@.len() - i,
    {
        let c = s[i];
        let l = w[i];
        if !(c == l || ('A' <= c && c <= 'Z' && (c as u32) + 32 == (l as u32))) {
            assert(!same_letter(s@[i as int], w@[i as int]));
            return false;
        }
        i = i + 1;
    }
    true
}

fn mantissa_check(m: &Vec<char>) -> (r: bool)
    ensures
        r == mantissa_ok(m@),
{
    let mut dot = false;
    let mut digit = false;
    let mut i: usize = 0;
    while i < m.len()
        invariant
            i <= m@.len(),
            forall|j: int| 0 <= j < i ==> is_digit(#[trigger] m@[j]) || m@[j] == '.',
            forall|j: int, k: int| 0 <= j < k < i ==> !(#[trigger] m@[j] == '.' && #[trigger] m@[k] == '.'),
            dot == (exists|j: int| 0 <= j < i && #[trigger] m@[j] == '.'),
            digit == (exists|j: int| 0 <= j < i && is_digit(#[trigger] m@[j])),
        decreases m@.len() - i,
    {
        let c = m[i];
        if c == '.' {
            if dot {
                let ghost j = choose|j: int| 0 <= j < i && #[trigger] m@[j] == '.';
                assert(m@[j] == '.' && m@[i as int] == '.');
                return false;
            }
            dot = true;
        } else if '0' <= c && c <= '9' {
            digit = true;
        } else {
            assert(!(is_digit(m@[i as int]) || m@[i as int] == '.'));
            return false;
        }
        i = i + 1;
    }
    digit
}

fn exponent_check(x: &Vec<char>) -> (r: bool)
    ensures
        r == exponent_ok(x@),
{
    let start: usize = if x.len() > 0 && (x[0] == '+' || x[0] == '-') {
        1
    } else {
        0
    };
    if start >= x.len() {
        return false;
    }
    let mut i: usize = start;
    while i < x.len()
        invariant
            start <= i <= x@.len(),
            start == sign_len(x@),
            forall|j: int| start <= j < i ==> #[trigger] is_digit(x@[j]),
        decreases x@.len() - i,
    {
        if !('0' <= x[i] && x[i] <= '9') {
            assert(!is_digit(x@.skip(start as int)[i - start]));
            return false;
        }
        i = i + 1;
    }
    assert forall|k: int| 0 <= k < x@.skip(start as int).len() implies #[trigger] is_digit(
        x@.skip(start as int)[k],
    ) by {
        assert(x@.skip(start as int)[k] == x@[k + start]);
    }
    true
}

fn number_check(b: &Vec<char>) -> (r: bool)
    ensures
        r == number_ok(b@),
{
    let mut k: usize = 0;
    while k < b.len() && !(b[k] == 'e' || b[k] == 'E')
        invariant
            k <= b@.len(),
            forall|j: int| 0 <= j < k ==> !#[trigger] is_exp_mark(b@[j]),
        decreases b@.len() - k,
    {
        k = k + 1;
    }
    if k == b.len() {
        let r = mantissa_check(b);
        assert(!(exists|j: int|
            0 <= j < b@.len() && #[trigger] is_exp_mark(b@[j]) && mantissa_ok(b@.take(j))
                && exponent_ok(b@.skip(j + 1))));
        return r;
    }
    assert(!mantissa_ok(b@)) by {
        assert(!(is_digit(b@[k as int]) || b@[k as int] == '.'));
    }
    let head = crate::text::slice_chars(b, 0, k);
    let tail = crate::text::slice_chars(b, k + 1, b.len());
    assert(head@ =~= b@.take(k as int));
    assert(tail@ =~= b@.skip(k + 1));
    let r = mantissa_check(&head) && exponent_check(&tail);
    proof {
        if !r {
            assert forall|j: int|
                0 <= j < b@.len() && #[trigger] is_exp_mark(b@[j]) && mantissa_ok(b@.take(j))
                implies !exponent_ok(b@.skip(j + 1)) by {
                if j != k {
                    if j > k {
                        assert(b@.take(j)[k as int] == b@[k as int]);
                        assert(!(is_digit(b@.take(j)[k as int]) || b@.take(j)[k as int] == '.'));
                    }
                } else {
                    assert(!mantissa_ok(head@) || !exponent_ok(tail@));
                }
            }
        } else {
            assert(is_exp_mark(b@[k as int]));
        }
    }
    r
}

/// Does `s` read as a floating-point number under `str::parse`?
pub fn is_decimal_number(s: &str) -> (r: bool)
    ensures
        r == decimal_number(s@),
{
    let v = chars_of(s);
    let start: usize = if v.len() > 0 && (v[0] == '+' || v[0] == '-') {
        1
    } else {
        0
    };
    let b = crate::text::slice_chars(&v, start, v.len());
    assert(b@ =~= s@.skip(sign_len(s@)));
    let inf: Vec<char> = vec!['i', 'n', 'f'];
    let infinity: Vec<char> = vec!['i', 'n', 'f', 'i', 'n', 'i', 't', 'y'];
    let nan: Vec<char> = vec!['n', 'a', 'n'];
    assert(inf@ =~= seq!['i', 'n', 'f']);
    assert(infinity@ =~= seq!['i', 'n', 'f', 'i', 'n', 'i', 't', 'y']);
    assert(nan@ =~= seq!['n', 'a', 'n']);
    spells_word(&b, &inf) || spells_word(&b, &infinity) || spells_word(&b, &nan) || number_check(&b)
}

} // verus!
