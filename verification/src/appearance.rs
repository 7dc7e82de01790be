//! Appearance preferences: which accent swatch is selected and the
//! interface scale typed in.

use vstd::prelude::*;
use crate::text::chars_of;
use crate::num::{parse_u32_chars, parse_u32_spec};

verus! {

/// `c` in ASCII lower case (other characters unchanged).
pub open spec fn ascii_lower(c: char) -> char {
    if 'A' <= c && c <= 'Z' {
        ((c as int) + 32) as char
    } else {
        c
    }
}

/// `a` and `b` are equal up to ASCII case, as `str::eq_ignore_ascii_case`
/// compares.
pub open spec fn eq_ignore_ascii_case_spec(a: Seq<char>, b: Seq<char>) -> bool {
    a.len() == b.len() && forall|i: int| 0 <= i < a.len() ==> #[trigger] ascii_lower(a[i]) == ascii_lower(b[i])
}

fn ascii_lower_exec(c: char) -> (r: char)
    ensures
        r == ascii_lower(c),
{
    if 'A' <= c && c <= 'Z' {
        let code: u8 = c as u8;
        let low: u8 = code + 32;
        let r = low as char;
        assert(r == ascii_lower(c)) by {
            assert((c as int) == (code as int));
        }
        r
    } else {
        c
    }
}

/// Is the swatch of `preset` the selected accent? The colours are compared
/// ignoring ASCII case.
pub fn accent_selected(current: &str, preset: &str) -> (b: bool)
    ensures
        b == eq_ignore_ascii_case_spec(current@, preset@),
{
    let a = chars_of(current);
    let p = chars_of(preset);
    if a.len() != p.len() {
        return false;
    }
    let mut i: usize = 0;
    while i < a.len()
        invariant
            a@ == current@,
            p@ == preset@,
            a@.len() == p@.len(),
            i <= a@.len(),
            forall|k: int| 0 <= k < i ==> #[trigger] ascii_lower(a@[k]) == ascii_lower(p@[k]),
        decreases a@.len() - i,
    {
        if ascii_lower_exec(a[i]) != ascii_lower_exec(p[i]) {
            return false;
        }
        i = i + 1;
    }
    true
}

/// The interface scale a selected option sets: the value read as a byte,
/// nothing when it is not one.
pub fn scale_input(value: &str) -> (r: Option<u8>)
    ensures
        r == match parse_u32_spec(value@) {
            Some(n) => if n <= 255 {
                Some(n as u8)
            } else {
                None
            },
            None => None,
        },
{
    match parse_u32_chars(&chars_of(value)) {
        Some(n) => if n <= 255 {
            Some(n as u8)
        } else {
            None
        },
        None => None,
    }
}

} // verus!
