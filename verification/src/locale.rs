//! Browser locale and timestamp helpers: the metadata country taken from a
//! BCP 47 language tag, and the `HH:MM` part of a rendered date-time.

use vstd::prelude::*;
use crate::text::{chars_of, string_of};

verus! {

/// `c` separates the subtags of a language tag (`-` or `_`).
pub open spec fn is_tag_sep(c: char) -> bool {
    c == '-' || c == '_'
}

/// The subtags of `s`, as `str::split(['-', '_'])` yields them.
pub open spec fn split_tag(s: Seq<char>) -> Seq<Seq<char>>
    decreases s.len(),
{
    if s.len() == 0 {
        seq![Seq::<char>::empty()]
    } else {
        let prev = split_tag(s.drop_last());
        if is_tag_sep(s.last()) {
            prev.push(Seq::<char>::empty())
        } else {
            prev.update(prev.len() - 1, prev.last().push(s.last()))
        }
    }
}

/// An ASCII letter.
pub open spec fn is_ascii_alpha(c: char) -> bool {
    ('a' <= c && c <= 'z') || ('A' <= c && c <= 'Z')
}

/// A subtag that names a region: exactly two ASCII letters.
pub open spec fn is_region(p: Seq<char>) -> bool {
    p.len() == 2 && is_ascii_alpha(p[0]) && is_ascii_alpha(p[1])
}

/// The last region subtag after the first subtag, if any.
pub open spec fn last_region(parts: Seq<Seq<char>>) -> Option<Seq<char>>
    decreases parts.len(),
{
    if parts.len() <= 1 {
        None
    } else if is_region(parts.last()) {
        Some(parts.last())
    } else {
        last_region(parts.drop_last())
    }
}

/// `c` in ASCII upper case (other characters unchanged).
pub open spec fn ascii_upper(c: char) -> char {
    if 'a' <= c && c <= 'z' {
        ((c as int) - 32) as char
    } else {
        c
    }
}

/// The country the dashboard reports for a browser language: the last
/// two-letter region subtag in upper case, or `US` when there is none.
pub open spec fn country_code_spec(language: Option<Seq<char>>) -> Seq<char> {
    match language {
        Some(l) => match last_region(split_tag(l)) {
            Some(p) => p.map_values(|c: char| ascii_upper(c)),
            None => seq!['U', 'S'],
        },
        None => seq!['U', 'S'],
    }
}

fn is_ascii_alpha_exec(c: char) -> (b: bool)
    ensures
        b == is_ascii_alpha(c),
{
    ('a' <= c && c <= 'z') || ('A' <= c && c <= 'Z')
}

fn ascii_upper_exec(c: char) -> (r: char)
    ensures
        r == ascii_upper(c),
{
    if 'a' <= c && c <= 'z' {
        let code: u8 = c as u8;
        let up: u8 = code - 32;
        let r = up as char;
        assert(r == ascii_upper(c)) by {
            assert((c as int) == (code as int));
        }
        r
    } else {
        c
    }
}

fn is_region_exec(p: &Vec<char>) -> (b: bool)
    ensures
        b == is_region(p@),
{
    p.len() == 2 && is_ascii_alpha_exec(p[0]) && is_ascii_alpha_exec(p[1])
}

/// The region subtag of `language` in upper case, `US` when the language is
/// unknown or names no region (`en-gb` gives `GB`, `zh-Hant-TW` gives `TW`).
pub fn country_code_from_language(language: Option<&str>) -> (r: String)
    ensures
        r@ == country_code_spec(
            match language {
                Some(l) => Some(l@),
                None => None,
            },
        ),
{
    let fallback = vec!['U', 'S'];
    let l = match language {
        Some(l) => l,
        None => {
            return string_of(&fallback);
        },
    };
    let v = chars_of(l);
    let mut cur: Vec<char> = Vec::new();
    let mut seen_sep = false;
    let mut best: Option<Vec<char>> = None;
    let mut i: usize = 0;
    proof {
        assert(v@.take(0) =~= Seq::<char>::empty());
    }
    while i < v.len()
        invariant
            i <= v@.len(),
            split_tag(v@.take(i as int)).len() >= 1,
            seen_sep == (split_tag(v@.take(i as int)).len() > 1),
            cur@ == split_tag(v@.take(i as int)).last(),
            match best {
                Some(b) => last_region(split_tag(v@.take(i as int)).drop_last()) == Some(b@),
                None => last_region(split_tag(v@.take(i as int)).drop_last()) is None,
            },
        decreases v@.len() - i,
    {
        let c = v[i];
        let ghost prev = split_tag(v@.take(i as int));
        proof {
            assert(v@.take(i + 1).drop_last() == v@.take(i as int));
            assert(v@.take(i + 1).last() == v@[i as int]);
        }
        if c == '-' || c == '_' {
            proof {
                assert(split_tag(v@.take(i + 1)) == prev.push(Seq::<char>::empty()));
                assert(prev.push(Seq::<char>::empty()).drop_last() == prev);
                assert(prev.drop_last().push(prev.last()) =~= prev);
            }
            if seen_sep && is_region_exec(&cur) {
                best = Some(cur);
            }
            cur = Vec::new();
            seen_sep = true;
        } else {
            cur.push(c);
            proof {
                let next = prev.update(prev.len() - 1, prev.last().push(c));
                assert(split_tag(v@.take(i + 1)) == next);
                assert(next.drop_last() =~= prev.drop_last());
            }
        }
        i = i + 1;
    }
    proof {
        assert(v@.take(i as int) == v@);
        let all = split_tag(v@);
        assert(all.drop_last().push(all.last()) =~= all);
    }
    let chosen = if seen_sep && is_region_exec(&cur) {
        Some(cur)
    } else {
        best
    };
    match chosen {
        Some(p) => {
            let mut out: Vec<char> = Vec::new();
            let mut k: usize = 0;
            while k < p.len()
                invariant
                    k <= p@.len(),
                    out@ == p@.take(k as int).map_values(|c: char| ascii_upper(c)),
                decreases p@.len() - k,
            {
                let u = ascii_upper_exec(p[k]);
                out.push(u);
                k = k + 1;
                assert(out@ =~= p@.take(k as int).map_values(|c: char| ascii_upper(c)));
            }
            assert(p@.take(k as int) == p@);
            string_of(&out)
        },
        None => string_of(&fallback),
    }
}

/// The characters of `s` from position `from` up to (not including) `to`,
/// both cut to the length of `s`.
pub open spec fn char_window(s: Seq<char>, from: int, to: int) -> Seq<char> {
    let a = if from < s.len() { from } else { s.len() as int };
    let b = if to < s.len() { to } else { s.len() as int };
    s.subrange(a, if b < a { a } else { b })
}

/// The `HH:MM` part of a rendered date-time such as `2026-02-26 18:30:38 UTC`:
/// the five characters after the first eleven (fewer when the text is short).
pub fn fmt_time(rendered: &str) -> (r: String)
    ensures
        r@ == char_window(rendered@, 11, 16),
{
    let v = chars_of(rendered);
    let mut out: Vec<char> = Vec::new();
    let mut i: usize = 11;
    while i < 16 && i < v.len()
        invariant
            11 <= i <= 16,
            i <= v@.len() || i == 11,
            out@ == char_window(v@, 11, i as int),
        decreases 16 - i,
    {
        out.push(v[i]);
        i = i + 1;
        assert(out@ =~= char_window(v@, 11, i as int));
    }
    assert(out@ =~= char_window(v@, 11, 16));
    string_of(&out)
}

/// The time column of a list row: the `HH:MM` of the rendered date, or `—`
/// when there is no date.
pub fn time_or_dash(rendered: Option<&str>) -> (r: String)
    ensures
        r@ == match rendered {
            Some(t) => char_window(t@, 11, 16),
            None => "\u{2014}"@,
        },
{
    match rendered {
        Some(t) => fmt_time(t),
        None => string_of(&chars_of("\u{2014}")),
    }
}

} // verus!
