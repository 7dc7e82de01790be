//! Human-readable byte sizes, as the log viewer shows them.

use vstd::prelude::*;
use crate::num::{dec, digit_char, fmt_int, push_dec, push_i64};
use crate::text::string_of;

verus! {

/// `n / d` rounded to the nearest integer, ties to the even one.
pub open spec fn div_round_even(n: nat, d: nat) -> nat
    recommends
        d > 0,
{
    let q = n / d;
    let r = n % d;
    if 2 * r > d || (2 * r == d && q % 2 == 1) {
        q + 1
    } else {
        q
    }
}

/// The power of two by which the nearest `f64` to `b` is a multiple: `1`
/// below 2^53, doubled for each further bit of `b`.
pub open spec fn f64_scale(b: nat) -> nat
    decreases b,
{
    if b < 0x20_0000_0000_0000 {
        1
    } else {
        2 * f64_scale(b / 2)
    }
}

/// The value of `b as f64`: `b` rounded to 53 significant bits, ties to even.
pub open spec fn f64_value(b: nat) -> nat {
    div_round_even(b, f64_scale(b)) * f64_scale(b)
}

/// Which unit a byte count is shown in: the largest of B, KB, MB, GB, TB
/// (`0..=4`) whose size does not exceed the count.
pub open spec fn size_unit(b: nat) -> nat {
    if b >= 0x100_0000_0000 {
        4
    } else if b >= 0x4000_0000 {
        3
    } else if b >= 0x10_0000 {
        2
    } else if b >= 0x400 {
        1
    } else {
        0
    }
}

/// The number of bytes in one of the scaled units.
pub open spec fn unit_divisor(u: nat) -> nat {
    if u == 1 {
        0x400
    } else if u == 2 {
        0x10_0000
    } else if u == 3 {
        0x4000_0000
    } else {
        0x100_0000_0000
    }
}

/// The name of a scaled unit.
pub open spec fn unit_name(u: nat) -> Seq<char> {
    if u == 1 {
        "KB"@
    } else if u == 2 {
        "MB"@
    } else if u == 3 {
        "GB"@
    } else {
        "TB"@
    }
}

/// The text shown for a size: `—` for a negative count, the exact count with
/// ` B` below one KiB, else the size in its unit with one decimal place (the
/// `f64` value of the count divided by the unit, rounded to tenths with ties to
/// even, as `{:.1}` prints it) and the unit's name.
pub open spec fn humanize_size_spec(bytes: int) -> Seq<char> {
    if bytes < 0 {
        "\u{2014}"@
    } else {
        let u = size_unit(bytes as nat);
        if u == 0 {
            fmt_int(bytes) + " B"@
        } else {
            let t = div_round_even(f64_value(bytes as nat) * 10, unit_divisor(u));
            dec(t / 10) + seq!['.', digit_char((t % 10) as int), ' '] + unit_name(u)
        }
    }
}

proof fn lemma_div_halves(b: nat, p: nat)
    requires
        p > 0,
    ensures
        (b / p) / 2 == b / (p * 2),
{
    vstd::arithmetic::div_mod::lemma_div_denominator(b as int, p as int, 2);
}

/// Computes `f64_value(b)` for `b < 2^63` with integer arithmetic.
fn f64_value_exec(b: u64) -> (f: u128)
    requires
        b < 0x8000_0000_0000_0000,
    ensures
        f == f64_value(b as nat),
        f < 0x1_0000_0000_0000_0000,
{
    let mut q: u128 = b as u128;
    let mut p: u128 = 1;
    while q >= 0x20_0000_0000_0000
        invariant
            p > 0,
            q == (b as nat) / (p as nat),
            f64_scale(b as nat) == p * f64_scale(q as nat),
            p == 1 || p * 0x10_0000_0000_0000 <= b,
            b < 0x8000_0000_0000_0000,
        decreases q,
    {
        proof {
            lemma_div_halves(b as nat, p as nat);
            vstd::arithmetic::div_mod::lemma_fundamental_div_mod(b as int, p as int);
            assert(p * 0x20_0000_0000_0000 <= b) by (nonlinear_arith)
                requires
                    (b as int) == p * ((b as int) / (p as int)) + (b as int) % (p as int),
                    (b as int) % (p as int) >= 0,
                    (b as int) / (p as int) >= 0x20_0000_0000_0000,
                    p > 0,
            ;
            assert(f64_scale(q as nat) == 2 * f64_scale((q / 2) as nat));
            assert(p * (2 * f64_scale((q / 2) as nat)) == (p * 2) * f64_scale((q / 2) as nat))
                by (nonlinear_arith);
        }
        q = q / 2;
        p = p * 2;
    }
    let scale = p;
    let quot: u128 = (b as u128) / scale;
    let rem: u128 = (b as u128) % scale;
    let rounded: u128 = if 2 * rem > scale || (2 * rem == scale && quot % 2 == 1) {
        quot + 1
    } else {
        quot
    };
    proof {
        assert(f64_scale(q as nat) == 1);
        assert(p * f64_scale(q as nat) == p * 1);
        assert(scale == f64_scale(b as nat));
        assert(scale < 0x800) by (nonlinear_arith)
            requires
                scale == 1 || scale * 0x10_0000_0000_0000 <= b,
                b < 0x8000_0000_0000_0000,
        ;
        assert(rounded * scale < 0x1_0000_0000_0000_0000) by (nonlinear_arith)
            requires
                rounded <= 0x20_0000_0000_0000,
                scale < 0x800,
        ;
    }
    rounded * scale
}

/// Human-readable byte size (e.g. `1.5 KB`).
pub fn humanize_size(bytes: i64) -> (s: String)
    ensures
        s@ == humanize_size_spec(bytes as int),
{
    if bytes < 0 {
        let v = vec!['\u{2014}'];
        proof {
            reveal_strlit("\u{2014}");
        }
        assert(v@ =~= "\u{2014}"@);
        return string_of(&v);
    }
    let b: u64 = bytes as u64;
    let mut out: Vec<char> = Vec::new();
    if b < 0x400 {
        push_i64(bytes, &mut out);
        out.push(' ');
        out.push('B');
        proof {
            reveal_strlit(" B");
        }
        assert(out@ =~= fmt_int(bytes as int) + " B"@);
        return string_of(&out);
    }
    let (unit, divisor): (u64, u128) = if b >= 0x100_0000_0000 {
        (4, 0x100_0000_0000)
    } else if b >= 0x4000_0000 {
        (3, 0x4000_0000)
    } else if b >= 0x10_0000 {
        (2, 0x10_0000)
    } else {
        (1, 0x400)
    };
    let f = f64_value_exec(b);
    let n: u128 = f * 10;
    let quot: u128 = n / divisor;
    let rem: u128 = n % divisor;
    let t: u128 = if 2 * rem > divisor || (2 * rem == divisor && quot % 2 == 1) {
        quot + 1
    } else {
        quot
    };
    proof {
        assert(t == div_round_even(f64_value(b as nat) * 10, unit_divisor(unit as nat)));
        assert(t <= n / 0x400 + 1);
        assert(t / 10 < 0x1_0000_0000_0000_0000);
    }
    let whole: u64 = (t / 10) as u64;
    let tenth: u64 = (t % 10) as u64;
    push_dec(whole, &mut out);
    out.push('.');
    out.push(if tenth == 0 { '0' } else if tenth == 1 { '1' } else if tenth == 2 { '2' } else if tenth == 3 { '3' } else if tenth == 4 { '4' } else if tenth == 5 { '5' } else if tenth == 6 { '6' } else if tenth == 7 { '7' } else if tenth == 8 { '8' } else { '9' });
    out.push(' ');
    if unit == 1 {
        out.push('K');
    } else if unit == 2 {
        out.push('M');
    } else if unit == 3 {
        out.push('G');
    } else {
        out.push('T');
    }
    out.push('B');
    proof {
        reveal_strlit("KB");
        reveal_strlit("MB");
        reveal_strlit("GB");
        reveal_strlit("TB");
    }
    assert(out@ =~= dec(t as nat / 10) + seq!['.', digit_char((t % 10) as int), ' '] + unit_name(unit as nat));
    string_of(&out)
}

} // verus!
