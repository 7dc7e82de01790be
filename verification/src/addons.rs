//! Addon management: the content types shown for an addon, the per-catalog
//! settings of the edit form and the update they turn into, the option
//! fields of an addon's configuration, and how the outcome of a save is
//! reported.

use vstd::prelude::*;
use crate::text::{
    chars_of, string_of, push_str, str_eq, trim, trim_str, is_trimmed, is_ws, views, join,
    join_strings, list_items, list_items_of, list_ready, lemma_list_items_join,
    lemma_trim_trimmed,
};
use crate::num::{fmt_int, dec, is_digit, parse_i64, parse_i64_spec, i64_to_string, lemma_dec_digits, lemma_parse_fmt_i64};
use crate::chips::contains_str;

verus! {

/// The content types an addon card shows: the ones chosen for the addon,
/// or every type it supports when none was chosen.
pub open spec fn display_types_spec(types: Seq<Seq<char>>, supported: Seq<Seq<char>>) -> Seq<Seq<char>> {
    if types.len() == 0 {
        supported
    } else {
        types
    }
}

fn copy_all(v: &Vec<String>) -> (r: Vec<String>)
    ensures
        views(r@) == views(v@),
{
    let mut r: Vec<String> = Vec::new();
    let mut i: usize = 0;
    while i < v.len()
        invariant
            i <= v@.len(),
            views(r@) == views(v@.take(i as int)),
        decreases v@.len() - i,
    {
        let e = v[i].clone();
        let ghost before = r@;
        r.push(e);
        proof {
            assert(v@.take(i + 1) =~= v@.take(i as int).push(v@[i as int]));
            assert(views(r@) =~= views(before).push(e@));
            assert(views(v@.take(i + 1)) =~= views(v@.take(i as int)).push(v@[i as int]@));
        }
        i = i + 1;
    }
    assert(v@.take(i as int) == v@);
    r
}

/// The content types an addon card shows (and the edit form starts with
/// checked): the chosen ones, or all supported ones when none was chosen.
pub fn display_types(types: &Vec<String>, supported: &Vec<String>) -> (r: Vec<String>)
    ensures
        views(r@) == display_types_spec(views(types@), views(supported@)),
{
    if types.len() == 0 {
        copy_all(supported)
    } else {
        copy_all(types)
    }
}

/// Is the catalog section of the edit form shown? Only while the `catalog`
/// resource is checked.
pub fn shows_catalog_section(resources: &Vec<String>) -> (b: bool)
    ensures
        b == views(resources@).contains("catalog"@),
{
    contains_str(resources, "catalog")
}

/// The stored settings of one addon catalog.
pub struct CatalogSettings {
    pub catalog_id: String,
    pub enabled: bool,
    pub max_items: Option<i64>,
    pub tags: Vec<String>,
    pub create_collection: bool,
}

/// The edit form's row for one catalog: the limit and the tags as the text
/// typed into their inputs.
pub struct CatalogSettingsRow {
    pub catalog_id: String,
    pub enabled: bool,
    pub max_items_text: String,
    pub tags_text: String,
    pub create_collection: bool,
}

/// The form row a catalog starts with: the limit as its decimal text (empty
/// when unlimited) and the tags joined with `", "`.
pub fn settings_row(c: &CatalogSettings) -> (r: CatalogSettingsRow)
    ensures
        r.catalog_id@ == c.catalog_id@,
        r.enabled == c.enabled,
        r.max_items_text@ == match c.max_items {
            Some(n) => fmt_int(n as int),
            None => Seq::<char>::empty(),
        },
        r.tags_text@ == join(views(c.tags@), ", "@),
        r.create_collection == c.create_collection,
{
    let max_items_text = match c.max_items {
        Some(n) => i64_to_string(n),
        None => string_of(&Vec::new()),
    };
    CatalogSettingsRow {
        catalog_id: c.catalog_id.clone(),
        enabled: c.enabled,
        max_items_text,
        tags_text: join_strings(&c.tags, ", "),
        create_collection: c.create_collection,
    }
}

/// The limit a typed text gives: the trimmed text read as an integer, kept
/// only when positive.
pub open spec fn max_items_of(text: Seq<char>) -> Option<i64> {
    match parse_i64_spec(trim(text)) {
        Some(n) => if n > 0 {
            Some(n)
        } else {
            None
        },
        None => None,
    }
}

/// The update sent for one catalog row: its tags are the comma-separated
/// entries of the tag text, trimmed, empty ones dropped.
pub fn catalog_update(row: &CatalogSettingsRow) -> (r: CatalogSettings)
    ensures
        r.catalog_id@ == row.catalog_id@,
        r.enabled == row.enabled,
        r.max_items == max_items_of(row.max_items_text@),
        views(r.tags@) == list_items(row.tags_text@),
        r.create_collection == row.create_collection,
{
    let t = trim_str(row.max_items_text.as_str());
    let max_items = match parse_i64(t.as_str()) {
        Some(n) => if n > 0 {
            Some(n)
        } else {
            None
        },
        None => None,
    };
    CatalogSettings {
        catalog_id: row.catalog_id.clone(),
        enabled: row.enabled,
        max_items,
        tags: list_items_of(row.tags_text.as_str()),
        create_collection: row.create_collection,
    }
}

proof fn lemma_fmt_int_trimmed(n: i64)
    ensures
        is_trimmed(fmt_int(n as int)),
{
    if n < 0 {
        let m: nat = (-(n as int)) as nat;
        lemma_dec_digits(m);
        let s = fmt_int(n as int);
        assert(s.last() == dec(m).last());
        assert(is_digit(dec(m)[dec(m).len() - 1]));
    } else {
        lemma_dec_digits(n as nat);
        assert(is_digit(dec(n as nat)[0]));
        assert(is_digit(dec(n as nat)[dec(n as nat).len() - 1]));
    }
}

/// Opening a catalog's settings in the edit form and saving them unchanged
/// sends back the same settings, when the limit is positive (or absent) and
/// the tags are a valid list (non-empty, trimmed, without commas).
pub proof fn law_catalog_settings_roundtrip(
    max_items: Option<i64>,
    tags: Seq<Seq<char>>,
)
    requires
        match max_items {
            Some(n) => n > 0,
            None => true,
        },
        list_ready(tags),
    ensures
        max_items_of(
            match max_items {
                Some(n) => fmt_int(n as int),
                None => Seq::<char>::empty(),
            },
        ) == max_items,
        list_items(join(tags, ", "@)) == tags,
{
    lemma_list_items_join(tags);
    match max_items {
        Some(n) => {
            lemma_fmt_int_trimmed(n);
            lemma_trim_trimmed(fmt_int(n as int));
            lemma_parse_fmt_i64(n);
        },
        None => {
            let e = Seq::<char>::empty();
            assert(trim(e) == e) by {
                lemma_trim_trimmed(e);
            }
        },
    }
}

/// Can the new addon be created? Not while a creation is running, without a
/// kind or with a blank name.
pub fn can_create_addon(creating: bool, name: &str, kind_selected: bool) -> (b: bool)
    ensures
        b == (!creating && trim(name@).len() > 0 && kind_selected),
{
    !creating && !trim_str(name).as_str().is_empty() && kind_selected
}

/// A configuration value of an addon option.
pub enum OptionValue {
    Text(String),
    Integer(i64),
    Flag(bool),
    Null,
    /// Any other JSON value, as its JSON text.
    Json(String),
}

/// The text an option input shows for a value: a string as it is, anything
/// else as its JSON text.
pub open spec fn option_text_spec(v: OptionValue) -> Seq<char> {
    match v {
        OptionValue::Text(s) => s@,
        OptionValue::Integer(n) => fmt_int(n as int),
        OptionValue::Flag(b) => if b {
            "true"@
        } else {
            "false"@
        },
        OptionValue::Null => "null"@,
        OptionValue::Json(t) => t@,
    }
}

/// The text an option input shows for its current value (empty when the
/// option has none).
pub fn option_text(v: Option<&OptionValue>) -> (r: String)
    ensures
        r@ == match v {
            Some(x) => option_text_spec(*x),
            None => Seq::<char>::empty(),
        },
{
    let mut out: Vec<char> = Vec::new();
    match v {
        Some(OptionValue::Text(s)) => push_str(&mut out, s.as_str()),
        Some(OptionValue::Integer(n)) => {
            let t = i64_to_string(*n);
            push_str(&mut out, t.as_str());
        },
        Some(OptionValue::Flag(b)) => if *b {
            push_str(&mut out, "true")
        } else {
            push_str(&mut out, "false")
        },
        Some(OptionValue::Null) => push_str(&mut out, "null"),
        Some(OptionValue::Json(t)) => push_str(&mut out, t.as_str()),
        None => {},
    }
    string_of(&out)
}

/// Is a boolean option's toggle on? Only when its value is `true`.
pub fn option_flag(v: Option<&OptionValue>) -> (b: bool)
    ensures
        b == match v {
            Some(OptionValue::Flag(x)) => *x,
            _ => false,
        },
{
    match v {
        Some(OptionValue::Flag(x)) => *x,
        _ => false,
    }
}

/// The value a number input stores: the typed text read as an integer, or
/// nothing (the stored value stays) when it is not one.
pub fn number_option(text: &str) -> (r: Option<OptionValue>)
    ensures
        match r {
            Some(OptionValue::Integer(n)) => parse_i64_spec(text@) == Some(n),
            Some(_) => false,
            None => parse_i64_spec(text@) is None,
        },
{
    match parse_i64(text) {
        Some(n) => Some(OptionValue::Integer(n)),
        None => None,
    }
}

/// The value a checkbox stores: true exactly when the input reports `true`.
pub fn flag_option(input: &str) -> (r: OptionValue)
    ensures
        r == OptionValue::Flag(input@ == "true"@),
{
    OptionValue::Flag(str_eq(input, "true"))
}

/// Sets entry `i` of a string-list option, when there is one.
pub fn set_list_entry(list: &mut Vec<String>, i: usize, v: String)
    ensures
        final(list)@ == if i < old(list)@.len() {
            old(list)@.update(i as int, v)
        } else {
            old(list)@
        },
{
    if i < list.len() {
        list.set(i, v);
    }
}

/// Removes entry `i` of a string-list option, when there is one.
pub fn remove_list_entry(list: &mut Vec<String>, i: usize)
    ensures
        final(list)@ == if i < old(list)@.len() {
            old(list)@.remove(i as int)
        } else {
            old(list)@
        },
{
    if i < list.len() {
        let _ = list.remove(i);
    }
}

/// Appends an empty entry to a string-list option.
pub fn add_list_entry(list: &mut Vec<String>)
    ensures
        final(list)@.len() == old(list)@.len() + 1,
        final(list)@.drop_last() == old(list)@,
        final(list)@.last()@ == Seq::<char>::empty(),
{
    let e = string_of(&Vec::new());
    list.push(e);
    assert(list@.drop_last() =~= old(list)@);
}

/// A word of an option's description: a link when it starts with `http://`
/// or `https://`, plain text otherwise.
pub enum DescriptionToken {
    Link(String),
    Text(String),
}

/// The maximal runs of non-whitespace characters of `s`, in order, as
/// `str::split_whitespace` yields them. `cur` is the run being read.
pub open spec fn words_from(s: Seq<char>, cur: Seq<char>) -> Seq<Seq<char>>
    decreases s.len(),
{
    if s.len() == 0 {
        if cur.len() > 0 {
            seq![cur]
        } else {
            Seq::empty()
        }
    } else if is_ws(s[0]) {
        if cur.len() > 0 {
            seq![cur] + words_from(s.drop_first(), Seq::empty())
        } else {
            words_from(s.drop_first(), Seq::empty())
        }
    } else {
        words_from(s.drop_first(), cur.push(s[0]))
    }
}

/// The words of `s`, as `str::split_whitespace` yields them.
pub open spec fn words(s: Seq<char>) -> Seq<Seq<char>> {
    words_from(s, Seq::empty())
}

/// The word names a web link.
pub open spec fn is_link(w: Seq<char>) -> bool {
    ("https://"@.len() <= w.len() && w.take("https://"@.len() as int) == "https://"@) || (
    "http://"@.len() <= w.len() && w.take("http://"@.len() as int) == "http://"@)
}

/// The model of a description token: whether it is a link, and its text.
pub open spec fn token_view(t: DescriptionToken) -> (bool, Seq<char>) {
    match t {
        DescriptionToken::Link(s) => (true, s@),
        DescriptionToken::Text(s) => (false, s@),
    }
}

fn starts_with_chars(w: &Vec<char>, p: &str) -> (b: bool)
    ensures
        b == (p@.len() <= w@.len() && w@.take(p@.len() as int) == p@),
{
    let pv = chars_of(p);
    if pv.len() > w.len() {
        return false;
    }
    let mut i: usize = 0;
    while i < pv.len()
        invariant
            pv@ == p@,
            i <= pv@.len() <= w@.len(),
            forall|k: int| 0 <= k < i ==> w@[k] == pv@[k],
        decreases pv@.len() - i,
    {
        if w[i] != pv[i] {
            assert(w@.take(pv@.len() as int)[i as int] != pv@[i as int]);
            return false;
        }
        i = i + 1;
    }
    assert(w@.take(pv@.len() as int) =~= pv@);
    true
}

fn make_token(w: &Vec<char>) -> (t: DescriptionToken)
    ensures
        token_view(t) == (is_link(w@), w@),
{
    let link = starts_with_chars(w, "https://") || starts_with_chars(w, "http://");
    let s = string_of(w);
    if link {
        DescriptionToken::Link(s)
    } else {
        DescriptionToken::Text(s)
    }
}

/// The words of an option's description, links marked.
pub fn description_tokens(desc: &str) -> (r: Vec<DescriptionToken>)
    ensures
        r@.len() == words(desc@).len(),
        forall|k: int|
            0 <= k < r@.len() ==> token_view(#[trigger] r@[k]) == (
                is_link(words(desc@)[k]),
                words(desc@)[k],
            ),
{
    let v = chars_of(desc);
    let mut out: Vec<DescriptionToken> = Vec::new();
    let mut cur: Vec<char> = Vec::new();
    let mut i: usize = 0;
    proof {
        assert(v@.skip(0) == v@);
    }
    while i < v.len()
        invariant
            i <= v@.len(),
            v@ == desc@,
            words(v@) == out@.map_values(|t: DescriptionToken| token_view(t).1) + words_from(
                v@.skip(i as int),
                cur@,
            ),
            forall|k: int|
                0 <= k < out@.len() ==> (#[trigger] token_view(out@[k])).0 == is_link(
                    token_view(out@[k]).1,
                ),
        decreases v@.len() - i,
    {
        let c = v[i];
        let ghost rest = v@.skip(i as int);
        proof {
            assert(rest[0] == c);
            assert(rest.drop_first() =~= v@.skip(i + 1));
        }
        if crate::text::is_whitespace(c) {
            if cur.len() > 0 {
                let t = make_token(&cur);
                let ghost before = out@;
                out.push(t);
                proof {
                    assert(out@.map_values(|t: DescriptionToken| token_view(t).1) =~= before.map_values(
                        |t: DescriptionToken| token_view(t).1,
                    ) + seq![cur@]);
                }
            }
            cur = Vec::new();
        } else {
            cur.push(c);
        }
        i = i + 1;
    }
    if cur.len() > 0 {
        let t = make_token(&cur);
        let ghost before = out@;
        out.push(t);
        proof {
            assert(out@.map_values(|t: DescriptionToken| token_view(t).1) =~= before.map_values(
                |t: DescriptionToken| token_view(t).1,
            ) + seq![cur@]);
        }
    }
    proof {
        let m = out@.map_values(|t: DescriptionToken| token_view(t).1);
        assert(words(v@) =~= m);
        assert forall|k: int| 0 <= k < out@.len() implies token_view(#[trigger] out@[k]) == (
            is_link(words(desc@)[k]),
            words(desc@)[k],
        ) by {
            assert(m[k] == token_view(out@[k]).1);
        }
    }
    out
}

/// What the edit dialog does once the addon and its catalogs were saved.
pub struct SaveOutcome {
    /// Close the dialog and reload the list.
    pub close: bool,
    /// The error to show, if any.
    pub error: Option<String>,
}

/// The outcome of saving an addon: a failed addon update keeps the dialog
/// open with `Failed to update addon: {e}`; a saved addon closes it, with
/// `Addon saved but catalog update failed: {e}` when the catalog update
/// failed.
pub fn save_outcome(addon_error: Option<&str>, catalog_error: Option<&str>) -> (r: SaveOutcome)
    ensures
        match addon_error {
            Some(e) => !r.close && match r.error {
                Some(m) => m@ == "Failed to update addon: "@ + e@,
                None => false,
            },
            None => r.close && match catalog_error {
                Some(e) => match r.error {
                    Some(m) => m@ == "Addon saved but catalog update failed: "@ + e@,
                    None => false,
                },
                None => r.error is None,
            },
        },
{
    match addon_error {
        Some(e) => {
            let mut out: Vec<char> = Vec::new();
            push_str(&mut out, "Failed to update addon: ");
            push_str(&mut out, e);
            SaveOutcome { close: false, error: Some(string_of(&out)) }
        },
        None => match catalog_error {
            Some(e) => {
                let mut out: Vec<char> = Vec::new();
                push_str(&mut out, "Addon saved but catalog update failed: ");
                push_str(&mut out, e);
                SaveOutcome { close: true, error: Some(string_of(&out)) }
            },
            None => SaveOutcome { close: true, error: None },
        },
    }
}

} // verus!
