//! Character-level text helpers: conversions between `&str`/`String` and
//! character vectors, Unicode whitespace trimming, splitting and joining.

use vstd::prelude::*;

verus! {

/// Returns the characters of `s`, in order.
pub(crate) fn chars_of(s: &str) -> (v: Vec<char>)
    ensures
        v@ == s@,
{
    let mut v: Vec<char> = Vec::new();
    for c in it: s.chars()
        invariant
            v@ == it.seq().take(it.index() as int),
    {
        v.push(c);
    }
    v
}

/// std `Iterator::collect` of the characters into a `String`: the string
/// holding exactly these characters, in order.
#[verifier::external_body]
pub(crate) fn string_of(v: &Vec<char>) -> (s: String)
    ensures
        s@ == v@,
{
    v.iter().collect()
}

/// Do `a` and `b` hold the same characters?
pub(crate) fn str_eq(a: &str, b: &str) -> (res: bool)
    ensures
        res == (a@ == b@),
{
    let x = a.to_owned();
    let y = b.to_owned();
    x == y
}


/// The lower-case form of `s` (`str::to_lowercase`, Unicode's full case
/// mapping).
pub uninterp spec fn lowercase(s: Seq<char>) -> Seq<char>;

/// `str::to_lowercase`: the Unicode lower-case mapping of `s`.
#[verifier::external_body]
pub(crate) fn to_lower(s: &str) -> (r: String)
    ensures
        r@ == lowercase(s@),
{
    s.to_lowercase()
}

/// Unicode `White_Space`, the property that `char::is_whitespace` tests.
pub open spec fn is_ws(c: char) -> bool {
    ('\u{9}' <= c && c <= '\u{d}') || c == ' ' || c == '\u{85}' || c == '\u{a0}'
        || c == '\u{1680}' || ('\u{2000}' <= c && c <= '\u{200a}') || c == '\u{2028}'
        || c == '\u{2029}' || c == '\u{202f}' || c == '\u{205f}' || c == '\u{3000}'
}

/// `s` without its leading whitespace.
pub open spec fn trim_start(s: Seq<char>) -> Seq<char>
    decreases s.len(),
{
    if s.len() > 0 && is_ws(s[0]) {
        trim_start(s.drop_first())
    } else {
        s
    }
}

/// `s` without its trailing whitespace.
pub open spec fn trim_end(s: Seq<char>) -> Seq<char>
    decreases s.len(),
{
    if s.len() > 0 && is_ws(s.last()) {
        trim_end(s.drop_last())
    } else {
        s
    }
}

/// `s` without leading and trailing whitespace, as `str::trim` gives it.
pub open spec fn trim(s: Seq<char>) -> Seq<char> {
    trim_end(trim_start(s))
}

/// Neither end of `s` is whitespace.
pub open spec fn is_trimmed(s: Seq<char>) -> bool {
    s.len() > 0 ==> !is_ws(s[0]) && !is_ws(s.last())
}

/// The pieces of `s` between occurrences of `sep`, as `str::split(sep)`
/// yields them (one empty piece for an empty `s`).
pub open spec fn split_on(s: Seq<char>, sep: char) -> Seq<Seq<char>>
    decreases s.len(),
{
    if s.len() == 0 {
        seq![Seq::<char>::empty()]
    } else {
        let prev = split_on(s.drop_last(), sep);
        if s.last() == sep {
            prev.push(Seq::<char>::empty())
        } else {
            prev.update(prev.len() - 1, prev.last().push(s.last()))
        }
    }
}

/// The trimmed pieces that are not empty, in order.
pub open spec fn nonempty_trimmed(pieces: Seq<Seq<char>>) -> Seq<Seq<char>>
    decreases pieces.len(),
{
    if pieces.len() == 0 {
        Seq::<Seq<char>>::empty()
    } else {
        let rest = nonempty_trimmed(pieces.drop_last());
        let t = trim(pieces.last());
        if t.len() > 0 {
            rest.push(t)
        } else {
            rest
        }
    }
}

/// The entries of a comma-separated list: split on `,`, trimmed, empty
/// entries dropped.
pub open spec fn list_items(s: Seq<char>) -> Seq<Seq<char>> {
    nonempty_trimmed(split_on(s, ','))
}

/// `items` joined with `sep` between consecutive entries, as `[T]::join` does.
pub open spec fn join(items: Seq<Seq<char>>, sep: Seq<char>) -> Seq<char>
    decreases items.len(),
{
    if items.len() == 0 {
        Seq::<char>::empty()
    } else if items.len() == 1 {
        items[0]
    } else {
        join(items.drop_last(), sep) + sep + items.last()
    }
}

/// The views of a sequence of `String`s.
pub open spec fn views(v: Seq<String>) -> Seq<Seq<char>> {
    v.map_values(|x: String| x@)
}

/// `c` does not occur in `s`.
pub open spec fn lacks(s: Seq<char>, c: char) -> bool {
    forall|k: int| 0 <= k < s.len() ==> s[k] != c
}

/// Tests whether `c` is Unicode whitespace.
pub fn is_whitespace(c: char) -> (b: bool)
    ensures
        b == is_ws(c),
{
    ('\u{9}' <= c && c <= '\u{d}') || c == ' ' || c == '\u{85}' || c == '\u{a0}'
        || c == '\u{1680}' || ('\u{2000}' <= c && c <= '\u{200a}') || c == '\u{2028}'
        || c == '\u{2029}' || c == '\u{202f}' || c == '\u{205f}' || c == '\u{3000}'
}

/// A copy of `v[from..to]`.
pub fn slice_chars(v: &Vec<char>, from: usize, to: usize) -> (r: Vec<char>)
    requires
        from <= to <= v@.len(),
    ensures
        r@ == v@.subrange(from as int, to as int),
{
    let mut r: Vec<char> = Vec::new();
    let mut i = from;
    while i < to
        invariant
            from <= i <= to <= v@.len(),
            r@ == v@.subrange(from as int, i as int),
        decreases to - i,
    {
        r.push(v[i]);
        i = i + 1;
        assert(r@ =~= v@.subrange(from as int, i as int));
    }
    r
}

proof fn lemma_trim_start_skip(s: Seq<char>, i: int)
    requires
        0 <= i < s.len(),
        is_ws(s[i]),
    ensures
        trim_start(s.skip(i)) == trim_start(s.skip(i + 1)),
{
    assert(s.skip(i).drop_first() == s.skip(i + 1));
}

proof fn lemma_trim_end_sub(s: Seq<char>, i: int, j: int)
    requires
        0 <= i < j <= s.len(),
        is_ws(s[j - 1]),
    ensures
        trim_end(s.subrange(i, j)) == trim_end(s.subrange(i, j - 1)),
{
    assert(s.subrange(i, j).drop_last() == s.subrange(i, j - 1));
}

/// The bounds of `trim(v)` within `v`.
pub fn trim_bounds(v: &Vec<char>) -> (r: (usize, usize))
    ensures
        r.0 <= r.1 <= v@.len(),
        trim(v@) == v@.subrange(r.0 as int, r.1 as int),
        forall|k: int| 0 <= k < r.0 ==> #[trigger] is_ws(v@[k]),
        forall|k: int| r.1 <= k < v@.len() ==> #[trigger] is_ws(v@[k]),
{
    let mut i: usize = 0;
    assert(v@.skip(0) == v@);
    while i < v.len() && is_whitespace(v[i])
        invariant
            i <= v@.len(),
            trim_start(v@) == trim_start(v@.skip(i as int)),
            forall|k: int| 0 <= k < i ==> #[trigger] is_ws(v@[k]),
        decreases v@.len() - i,
    {
        proof {
            lemma_trim_start_skip(v@, i as int);
        }
        i = i + 1;
    }
    assert(trim_start(v@) == v@.skip(i as int));
    assert(v@.skip(i as int) == v@.subrange(i as int, v@.len() as int));
    let mut j: usize = v.len();
    while j > i && is_whitespace(v[j - 1])
        invariant
            i <= j <= v@.len(),
            trim_end(v@.subrange(i as int, v@.len() as int)) == trim_end(v@.subrange(i as int, j as int)),
            forall|k: int| j <= k < v@.len() ==> #[trigger] is_ws(v@[k]),
        decreases j,
    {
        proof {
            lemma_trim_end_sub(v@, i as int, j as int);
        }
        j = j - 1;
    }
    assert(trim_end(v@.subrange(i as int, j as int)) == v@.subrange(i as int, j as int));
    (i, j)
}

/// `v` without leading and trailing whitespace.
pub fn trim_chars(v: &Vec<char>) -> (r: Vec<char>)
    ensures
        r@ == trim(v@),
{
    let (i, j) = trim_bounds(v);
    slice_chars(v, i, j)
}

/// `s` without leading and trailing whitespace, as `str::trim` gives it.
pub fn trim_str(s: &str) -> (r: String)
    ensures
        r@ == trim(s@),
{
    let v = chars_of(s);
    string_of(&trim_chars(&v))
}

/// Is `s` empty once trimmed (`s.trim().is_empty()`)?
pub fn is_blank(s: &str) -> (b: bool)
    ensures
        b == (trim(s@).len() == 0),
{
    let v = chars_of(s);
    let (i, j) = trim_bounds(&v);
    i == j
}

proof fn lemma_split_step(s: Seq<char>, sep: char, i: int)
    requires
        0 <= i < s.len(),
    ensures
        s.take(i + 1).drop_last() == s.take(i),
        s.take(i + 1).last() == s[i],
{
}

pub proof fn lemma_split_nonempty(s: Seq<char>, sep: char)
    ensures
        split_on(s, sep).len() >= 1,
    decreases s.len(),
{
    if s.len() > 0 {
        lemma_split_nonempty(s.drop_last(), sep);
    }
}

/// The comma-separated entries of `v`, trimmed, empty ones dropped.
pub fn list_items_chars(v: &Vec<char>) -> (r: Vec<Vec<char>>)
    ensures
        r@.map_values(|x: Vec<char>| x@) == list_items(v@),
{
    let mut out: Vec<Vec<char>> = Vec::new();
    let mut cur: Vec<char> = Vec::new();
    let mut i: usize = 0;
    proof {
        assert(v@.take(0) =~= Seq::<char>::empty());
    }
    while i < v.len()
        invariant
            i <= v@.len(),
            split_on(v@.take(i as int), ',').len() >= 1,
            out@.map_values(|x: Vec<char>| x@) == nonempty_trimmed(
                split_on(v@.take(i as int), ',').drop_last(),
            ),
            cur@ == split_on(v@.take(i as int), ',').last(),
        decreases v@.len() - i,
    {
        let c = v[i];
        let ghost prev = split_on(v@.take(i as int), ',');
        proof {
            lemma_split_step(v@, ',', i as int);
        }
        if c == ',' {
            let t = trim_chars(&cur);
            proof {
                assert(split_on(v@.take(i + 1), ',') == prev.push(Seq::<char>::empty()));
                assert(prev.push(Seq::<char>::empty()).drop_last() == prev);
                assert(prev.drop_last().push(prev.last()) == prev);
            }
            if t.len() > 0 {
                out.push(t);
            }
            cur = Vec::new();
            proof {
                assert(out@.map_values(|x: Vec<char>| x@) =~= nonempty_trimmed(prev));
            }
        } else {
            cur.push(c);
            proof {
                let next = prev.update(prev.len() - 1, prev.last().push(c));
                assert(split_on(v@.take(i + 1), ',') == next);
                assert(next.drop_last() =~= prev.drop_last());
            }
        }
        i = i + 1;
    }
    let t = trim_chars(&cur);
    let ghost all = split_on(v@.take(i as int), ',');
    proof {
        assert(v@.take(i as int) == v@);
        assert(all.drop_last().push(all.last()) == all);
    }
    if t.len() > 0 {
        out.push(t);
    }
    assert(out@.map_values(|x: Vec<char>| x@) =~= nonempty_trimmed(all));
    out
}

/// The comma-separated entries of `s`: each trimmed, empty ones dropped.
pub fn list_items_of(s: &str) -> (r: Vec<String>)
    ensures
        views(r@) == list_items(s@),
{
    let v = chars_of(s);
    let items = list_items_chars(&v);
    let mut r: Vec<String> = Vec::new();
    let mut k: usize = 0;
    while k < items.len()
        invariant
            k <= items@.len(),
            r@.len() == k,
            items@.map_values(|x: Vec<char>| x@) == list_items(s@),
            views(r@) == items@.take(k as int).map_values(|x: Vec<char>| x@),
        decreases items@.len() - k,
    {
        let ghost old_r = r@;
        let piece = string_of(&items[k]);
        r.push(piece);
        proof {
            let target = items@.take(k + 1).map_values(|x: Vec<char>| x@);
            assert forall|j: int| 0 <= j < k + 1 implies views(r@)[j] == target[j] by {
                if j < k {
                    assert(r@[j] == old_r[j]);
                    assert(views(old_r)[j] == items@.take(k as int).map_values(|x: Vec<char>| x@)[j]);
                }
            }
            assert(views(r@) =~= target);
        }
        k = k + 1;
    }
    assert(items@.take(k as int) == items@);
    r
}


/// Appends all of `w` to `out`.
pub fn push_all(out: &mut Vec<char>, w: &Vec<char>)
    ensures
        final(out)@ == old(out)@ + w@,
{
    let mut i: usize = 0;
    while i < w.len()
        invariant
            i <= w@.len(),
            out@ == old(out)@ + w@.take(i as int),
        decreases w@.len() - i,
    {
        out.push(w[i]);
        i = i + 1;
        assert(out@ =~= old(out)@ + w@.take(i as int));
    }
    assert(w@.take(i as int) == w@);
}

/// Appends the characters of `s` to `out`.
pub fn push_str(out: &mut Vec<char>, s: &str)
    ensures
        final(out)@ == old(out)@ + s@,
{
    let w = chars_of(s);
    push_all(out, &w);
}

/// `items` joined with `sep` between consecutive entries, as `[String]::join`.
pub fn join_strings(items: &Vec<String>, sep: &str) -> (r: String)
    ensures
        r@ == join(views(items@), sep@),
{
    let mut out: Vec<char> = Vec::new();
    let mut k: usize = 0;
    while k < items.len()
        invariant
            k <= items@.len(),
            out@ == join(views(items@.take(k as int)), sep@),
        decreases items@.len() - k,
    {
        let ghost before = views(items@.take(k as int));
        if k > 0 {
            push_str(&mut out, sep);
        }
        push_str(&mut out, items[k].as_str());
        proof {
            let after = views(items@.take(k + 1));
            assert(after.drop_last() =~= before);
            assert(after.last() == items@[k as int]@);
            if k == 0 {
                assert(after.len() == 1);
            }
        }
        k = k + 1;
    }
    assert(items@.take(k as int) == items@);
    string_of(&out)
}

proof fn lemma_trim_start_suffix(s: Seq<char>) -> (k: int)
    ensures
        0 <= k <= s.len(),
        trim_start(s) == s.skip(k),
        trim_start(s).len() > 0 ==> !is_ws(trim_start(s)[0]),
    decreases s.len(),
{
    if s.len() > 0 && is_ws(s[0]) {
        let k1 = lemma_trim_start_suffix(s.drop_first());
        assert(s.drop_first().skip(k1) == s.skip(k1 + 1));
        k1 + 1
    } else {
        assert(s.skip(0) == s);
        0
    }
}

proof fn lemma_trim_end_prefix(s: Seq<char>) -> (k: int)
    ensures
        0 <= k <= s.len(),
        trim_end(s) == s.take(k),
        trim_end(s).len() > 0 ==> !is_ws(trim_end(s).last()),
    decreases s.len(),
{
    if s.len() > 0 && is_ws(s.last()) {
        let k1 = lemma_trim_end_prefix(s.drop_last());
        assert(s.drop_last().take(k1) == s.take(k1));
        k1
    } else {
        assert(s.take(s.len() as int) == s);
        s.len() as int
    }
}

/// A trimmed text is trimmed, is part of the untrimmed one, and lacks what
/// the untrimmed one lacks.
pub proof fn lemma_trim_props(s: Seq<char>, c: char)
    ensures
        is_trimmed(trim(s)),
        lacks(s, c) ==> lacks(trim(s), c),
{
    let a = lemma_trim_start_suffix(s);
    let t = trim_start(s);
    let b = lemma_trim_end_prefix(t);
    if trim(s).len() > 0 {
        assert(trim(s)[0] == t[0]);
    }
    if lacks(s, c) {
        assert forall|k: int| 0 <= k < trim(s).len() implies trim(s)[k] != c by {
            assert(trim(s)[k] == t[k]);
            assert(t[k] == s[k + a]);
        }
    }
}

/// Trimming a trimmed text changes nothing.
pub proof fn lemma_trim_trimmed(y: Seq<char>)
    requires
        is_trimmed(y),
    ensures
        trim(y) == y,
{
    if y.len() > 0 {
        assert(trim_start(y) == y);
        assert(trim_end(y) == y);
    } else {
        assert(trim_start(y) == y);
    }
}

/// A leading space is trimmed away.
proof fn lemma_trim_space_prefix(y: Seq<char>)
    requires
        is_trimmed(y),
    ensures
        trim(seq![' '] + y) == y,
{
    let z = seq![' '] + y;
    assert(z.drop_first() == y);
    assert(trim_start(z) == trim_start(y));
    lemma_trim_trimmed(y);
    if y.len() > 0 {
        assert(trim_start(y) == y);
    } else {
        assert(trim_start(y) == y);
    }
}

/// A text without the separator is one piece.
proof fn lemma_split_whole(z: Seq<char>, c: char)
    requires
        lacks(z, c),
    ensures
        split_on(z, c) == seq![z],
    decreases z.len(),
{
    if z.len() > 0 {
        assert(lacks(z.drop_last(), c));
        lemma_split_whole(z.drop_last(), c);
        assert(z.drop_last().push(z.last()) == z);
        assert(z[z.len() - 1] != c);
        let prev = split_on(z.drop_last(), c);
        assert(prev.update(prev.len() - 1, prev.last().push(z.last())) =~= seq![z]);
    } else {
        assert(z =~= Seq::<char>::empty());
    }
}

/// Splitting `x`, the separator, then a piece without it adds that piece.
proof fn lemma_split_append(x: Seq<char>, z: Seq<char>, c: char)
    requires
        lacks(z, c),
    ensures
        split_on(x + seq![c] + z, c) == split_on(x, c).push(z),
    decreases z.len(),
{
    let w = x + seq![c] + z;
    lemma_split_nonempty(x, c);
    if z.len() == 0 {
        assert(w.drop_last() =~= x);
        assert(w.last() == c);
        assert(z =~= Seq::<char>::empty());
    } else {
        let z0 = z.drop_last();
        assert(lacks(z0, c));
        lemma_split_append(x, z0, c);
        assert(w.drop_last() =~= x + seq![c] + z0);
        assert(w.last() == z.last());
        assert(z[z.len() - 1] != c);
        assert(z0.push(z.last()) =~= z);
        let prev = split_on(x, c).push(z0);
        assert(prev.len() - 1 == split_on(x, c).len());
        assert(prev.last() == z0);
        assert(prev.update(prev.len() - 1, prev.last().push(w.last())) =~= split_on(x, c).push(z));
    }
}

/// Entries fit to stand in a comma-separated list: not empty, trimmed, and
/// without a comma.
pub open spec fn list_ready(items: Seq<Seq<char>>) -> bool {
    forall|k: int| 0 <= k < items.len() ==> {
        &&& #[trigger] items[k].len() > 0
        &&& is_trimmed(items[k])
        &&& lacks(items[k], ',')
    }
}

/// Listing entries joined with `", "` gives the entries back.
pub proof fn lemma_list_items_join(items: Seq<Seq<char>>)
    requires
        list_ready(items),
    ensures
        list_items(join(items, ", "@)) == items,
    decreases items.len(),
{
    reveal_strlit(", ");
    if items.len() == 0 {
        let e = Seq::<char>::empty();
        assert(join(items, ", "@) == e);
        assert(split_on(e, ',') == seq![e]);
        assert(seq![e].drop_last() =~= Seq::<Seq<char>>::empty());
        assert(trim_start(e) == e);
        assert(trim_end(e) == e);
        assert(trim(e) == e);
        assert(seq![e].last() == e);
        assert(nonempty_trimmed(seq![e].drop_last()) =~= Seq::<Seq<char>>::empty());
        assert(nonempty_trimmed(seq![e]) =~= Seq::<Seq<char>>::empty());
        assert(items =~= Seq::<Seq<char>>::empty());
    } else if items.len() == 1 {
        assert(items[0].len() > 0 && is_trimmed(items[0]) && lacks(items[0], ','));
        lemma_split_whole(items[0], ',');
        lemma_trim_trimmed(items[0]);
        assert(join(items, ", "@) == items[0]);
        let pieces = seq![items[0]];
        assert(pieces.drop_last() =~= Seq::<Seq<char>>::empty());
        assert(nonempty_trimmed(pieces.drop_last()) =~= Seq::<Seq<char>>::empty());
        assert(pieces.last() == items[0]);
        assert(nonempty_trimmed(pieces) =~= seq![items[0]]);
        assert(items =~= seq![items[0]]);
    } else {
        let front = items.drop_last();
        let y = items.last();
        assert(y.len() > 0 && is_trimmed(y) && lacks(y, ','));
        assert(list_ready(front)) by {
            assert forall|k: int| 0 <= k < front.len() implies {
                &&& #[trigger] front[k].len() > 0
                &&& is_trimmed(front[k])
                &&& lacks(front[k], ',')
            } by {
                assert(front[k] == items[k]);
                assert(items[k].len() > 0);
            }
        }
        lemma_list_items_join(front);
        let x = join(front, ", "@);
        let z = seq![' '] + y;
        assert(lacks(z, ','));
        assert(join(items, ", "@) == x + ", "@ + y);
        assert(x + ", "@ + y == x + seq![','] + z);
        lemma_split_append(x, z, ',');
        lemma_trim_space_prefix(y);
        let pieces = split_on(x, ',').push(z);
        assert(split_on(join(items, ", "@), ',') == pieces);
        assert(pieces.drop_last() =~= split_on(x, ','));
        assert(pieces.last() == z);
        assert(trim(z) == y);
        assert(nonempty_trimmed(pieces) == nonempty_trimmed(split_on(x, ',')).push(y));
        assert(nonempty_trimmed(split_on(x, ',')) == front);
        assert(front.push(y) =~= items);
    }
}

/// Every entry of a listing is non-empty, trimmed and comma-free.
pub proof fn lemma_list_items_ready(s: Seq<char>)
    ensures
        list_ready(list_items(s)),
{
    lemma_pieces_lack(s, ',');
    lemma_nonempty_trimmed_ready(split_on(s, ','));
}

proof fn lemma_pieces_lack(s: Seq<char>, c: char)
    ensures
        forall|k: int| 0 <= k < split_on(s, c).len() ==> lacks(#[trigger] split_on(s, c)[k], c),
    decreases s.len(),
{
    lemma_split_nonempty(s, c);
    if s.len() > 0 {
        lemma_pieces_lack(s.drop_last(), c);
        lemma_split_nonempty(s.drop_last(), c);
        let prev = split_on(s.drop_last(), c);
        if s.last() != c {
            let last = prev.last().push(s.last());
            assert(lacks(prev[prev.len() - 1], c));
            assert(lacks(last, c));
            assert forall|k: int| 0 <= k < split_on(s, c).len() implies lacks(#[trigger] split_on(s, c)[k], c) by {
                if k < prev.len() - 1 {
                    assert(split_on(s, c)[k] == prev[k]);
                }
            }
        } else {
            assert forall|k: int| 0 <= k < split_on(s, c).len() implies lacks(#[trigger] split_on(s, c)[k], c) by {
                if k < prev.len() {
                    assert(split_on(s, c)[k] == prev[k]);
                }
            }
        }
    }
}

proof fn lemma_nonempty_trimmed_ready(pieces: Seq<Seq<char>>)
    requires
        forall|k: int| 0 <= k < pieces.len() ==> lacks(#[trigger] pieces[k], ','),
    ensures
        list_ready(nonempty_trimmed(pieces)),
    decreases pieces.len(),
{
    if pieces.len() > 0 {
        let front = pieces.drop_last();
        assert forall|k: int| 0 <= k < front.len() implies lacks(#[trigger] front[k], ',') by {
            assert(front[k] == pieces[k]);
        }
        lemma_nonempty_trimmed_ready(front);
        let t = trim(pieces.last());
        assert(lacks(pieces[pieces.len() - 1], ','));
        lemma_trim_props(pieces.last(), ',');
        let rest = nonempty_trimmed(front);
        if t.len() > 0 {
            assert forall|k: int| 0 <= k < rest.push(t).len() implies {
                &&& #[trigger] rest.push(t)[k].len() > 0
                &&& is_trimmed(rest.push(t)[k])
                &&& lacks(rest.push(t)[k], ',')
            } by {
                if k < rest.len() {
                    assert(rest.push(t)[k] == rest[k]);
                    assert(rest[k].len() > 0);
                }
            }
        }
    }
}

/// Re-reading a listing written back with `", "` gives the same entries.
pub proof fn lemma_list_items_idempotent(s: Seq<char>)
    ensures
        list_items(join(list_items(s), ", "@)) == list_items(s),
{
    lemma_list_items_ready(s);
    lemma_list_items_join(list_items(s));
}

/// The pieces of a list joined with `", "`: one per entry, each trimming to
/// its entry.
pub proof fn lemma_split_join_pieces(items: Seq<Seq<char>>)
    requires
        list_ready(items),
        items.len() > 0,
    ensures
        split_on(join(items, ", "@), ',').len() == items.len(),
        forall|k: int|
            0 <= k < items.len() ==> trim(#[trigger] split_on(join(items, ", "@), ',')[k])
                == items[k],
    decreases items.len(),
{
    reveal_strlit(", ");
    if items.len() == 1 {
        assert(items[0].len() > 0 && is_trimmed(items[0]) && lacks(items[0], ','));
        lemma_split_whole(items[0], ',');
        lemma_trim_trimmed(items[0]);
        assert(join(items, ", "@) == items[0]);
    } else {
        let front = items.drop_last();
        let y = items.last();
        assert(y.len() > 0 && is_trimmed(y) && lacks(y, ','));
        assert(list_ready(front)) by {
            assert forall|k: int| 0 <= k < front.len() implies {
                &&& #[trigger] front[k].len() > 0
                &&& is_trimmed(front[k])
                &&& lacks(front[k], ',')
            } by {
                assert(front[k] == items[k]);
                assert(items[k].len() > 0);
            }
        }
        lemma_split_join_pieces(front);
        let x = join(front, ", "@);
        let z = seq![' '] + y;
        assert(lacks(z, ','));
        assert(join(items, ", "@) == x + ", "@ + y);
        assert(x + ", "@ + y == x + seq![','] + z);
        lemma_split_append(x, z, ',');
        lemma_trim_space_prefix(y);
        let pieces = split_on(x, ',').push(z);
        assert(split_on(join(items, ", "@), ',') == pieces);
        assert forall|k: int| 0 <= k < items.len() implies trim(#[trigger] split_on(join(items, ", "@), ',')[k]) == items[k] by {
            if k < front.len() {
                assert(pieces[k] == split_on(x, ',')[k]);
                assert(trim(split_on(x, ',')[k]) == front[k]);
            } else {
                assert(pieces[k] == z);
            }
        }
    }
}

/// The pieces of `v` between occurrences of `sep`, as `str::split` yields
/// them.
pub fn split_chars(v: &Vec<char>, sep: char) -> (r: Vec<Vec<char>>)
    ensures
        r@.map_values(|x: Vec<char>| x@) == split_on(v@, sep),
{
    let mut out: Vec<Vec<char>> = Vec::new();
    let mut cur: Vec<char> = Vec::new();
    let mut i: usize = 0;
    proof {
        assert(v@.take(0) =~= Seq::<char>::empty());
    }
    while i < v.len()
        invariant
            i <= v@.len(),
            split_on(v@.take(i as int), sep).len() >= 1,
            out@.map_values(|x: Vec<char>| x@) == split_on(v@.take(i as int), sep).drop_last(),
            cur@ == split_on(v@.take(i as int), sep).last(),
        decreases v@.len() - i,
    {
        let c = v[i];
        let ghost prev = split_on(v@.take(i as int), sep);
        proof {
            lemma_split_step(v@, sep, i as int);
        }
        if c == sep {
            let done = cur;
            out.push(done);
            cur = Vec::new();
            proof {
                assert(split_on(v@.take(i + 1), sep) == prev.push(Seq::<char>::empty()));
                assert(prev.push(Seq::<char>::empty()).drop_last() == prev);
                assert(prev.drop_last().push(prev.last()) =~= prev);
                assert(out@.map_values(|x: Vec<char>| x@) =~= prev);
            }
        } else {
            cur.push(c);
            proof {
                let next = prev.update(prev.len() - 1, prev.last().push(c));
                assert(split_on(v@.take(i + 1), sep) == next);
                assert(next.drop_last() =~= prev.drop_last());
            }
        }
        i = i + 1;
    }
    let ghost all = split_on(v@.take(i as int), sep);
    proof {
        assert(v@.take(i as int) == v@);
        assert(all.drop_last().push(all.last()) =~= all);
    }
    out.push(cur);
    assert(out@.map_values(|x: Vec<char>| x@) =~= all);
    out
}

} // verus!
