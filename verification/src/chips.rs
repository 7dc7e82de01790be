//! Chip lists: the tag and filter-value inputs where typed text becomes a
//! chip on Enter or `,`, Backspace on an empty input drops the last chip and
//! each chip has a remove button; and the checkbox lists that add or remove
//! one value.

use vstd::prelude::*;
use crate::text::{
    chars_of, string_of, str_eq, trim, trim_chars, is_trimmed, lacks, views, list_ready,
    lemma_trim_props, join, list_items, lemma_list_items_join,
};
use crate::filters::{raw_to_rule_spec, rule_values_spec, is_set_field_spec, lemma_field_keys_distinct};

verus! {

/// `s` with every `,` removed.
pub open spec fn without_commas(s: Seq<char>) -> Seq<char>
    decreases s.len(),
{
    if s.len() == 0 {
        s
    } else if s.last() == ',' {
        without_commas(s.drop_last())
    } else {
        without_commas(s.drop_last()).push(s.last())
    }
}

/// The chip that typed text would become: commas removed, then trimmed.
pub open spec fn chip_text_spec(input: Seq<char>) -> Seq<char> {
    trim(without_commas(input))
}

/// What a key press in a chip input does.
pub enum ChipAction {
    /// Commit this text as a chip.
    Add(String),
    /// Drop the last chip.
    PopLast,
    /// Nothing happens.
    Ignore,
}

/// The chip that typed text would become: commas removed, then trimmed.
pub fn chip_text(input: &str) -> (r: String)
    ensures
        r@ == chip_text_spec(input@),
{
    let v = chars_of(input);
    let mut kept: Vec<char> = Vec::new();
    let mut i: usize = 0;
    while i < v.len()
        invariant
            i <= v@.len(),
            kept@ == without_commas(v@.take(i as int)),
        decreases v@.len() - i,
    {
        proof {
            assert(v@.take(i + 1).drop_last() == v@.take(i as int));
            assert(v@.take(i + 1).last() == v@[i as int]);
        }
        if v[i] != ',' {
            kept.push(v[i]);
        }
        i = i + 1;
    }
    assert(v@.take(i as int) == v@);
    string_of(&trim_chars(&kept))
}

/// The action for `key` pressed while the input holds `input`: Enter or `,`
/// commits the chip text when it is not empty; Backspace on an empty input
/// drops the last chip; any other key does nothing.
pub fn chip_key_action(key: &str, input: &str) -> (r: ChipAction)
    ensures
        match r {
            ChipAction::Add(t) => (key@ == "Enter"@ || key@ == ","@) && t@ == chip_text_spec(input@)
                && t@.len() > 0,
            ChipAction::PopLast => !((key@ == "Enter"@ || key@ == ","@) && chip_text_spec(
                input@,
            ).len() > 0) && key@ == "Backspace"@ && input@.len() == 0,
            ChipAction::Ignore => !((key@ == "Enter"@ || key@ == ","@) && chip_text_spec(
                input@,
            ).len() > 0) && !(key@ == "Backspace"@ && input@.len() == 0),
        },
{
    let text = chip_text(input);
    let commit_key = str_eq(key, "Enter") || str_eq(key, ",");
    if commit_key && !text.as_str().is_empty() {
        ChipAction::Add(text)
    } else if str_eq(key, "Backspace") && input.is_empty() {
        ChipAction::PopLast
    } else {
        ChipAction::Ignore
    }
}

/// Does `values` hold an entry equal to `s`?
pub fn contains_str(values: &Vec<String>, s: &str) -> (b: bool)
    ensures
        b == views(values@).contains(s@),
{
    let mut i: usize = 0;
    while i < values.len()
        invariant
            i <= values@.len(),
            forall|k: int| 0 <= k < i ==> values@[k]@ != s@,
        decreases values@.len() - i,
    {
        if str_eq(values[i].as_str(), s) {
            assert(views(values@)[i as int] == s@);
            return true;
        }
        i = i + 1;
    }
    assert forall|k: int| 0 <= k < views(values@).len() implies views(values@)[k] != s@ by {
        assert(views(values@)[k] == values@[k]@);
    }
    false
}

/// `values` with `v` appended when it is not already there.
pub open spec fn push_unique_spec(values: Seq<Seq<char>>, v: Seq<char>) -> Seq<Seq<char>> {
    if values.contains(v) {
        values
    } else {
        values.push(v)
    }
}

/// Appends `v` unless an equal entry is already there (a suggestion picked
/// from the dropdown).
pub fn push_unique(values: &mut Vec<String>, v: &str)
    ensures
        views(final(values)@) == push_unique_spec(views(old(values)@), v@),
{
    if !contains_str(values, v) {
        let s = string_of(&chars_of(v));
        values.push(s);
        assert(views(values@) =~= views(old(values)@).push(v@));
    }
}

/// The tag list after adding `tag`: the trimmed tag is appended when it is
/// not empty and not already present.
pub open spec fn add_tag_spec(values: Seq<Seq<char>>, tag: Seq<char>) -> Seq<Seq<char>> {
    let t = trim(tag);
    if t.len() > 0 {
        push_unique_spec(values, t)
    } else {
        values
    }
}

/// Adds `tag`, trimmed, unless it is empty or already present.
pub fn add_tag(values: &mut Vec<String>, tag: &str)
    ensures
        views(final(values)@) == add_tag_spec(views(old(values)@), tag@),
{
    let t = string_of(&trim_chars(&chars_of(tag)));
    if !t.as_str().is_empty() {
        push_unique(values, t.as_str());
    }
}

/// Removes the chip at `index`.
pub fn remove_chip(values: &mut Vec<String>, index: usize)
    requires
        index < old(values)@.len(),
    ensures
        final(values)@ == old(values)@.remove(index as int),
{
    values.remove(index);
}

/// Drops the last chip, if there is one.
pub fn pop_chip(values: &mut Vec<String>)
    ensures
        final(values)@ == if old(values)@.len() == 0 {
            old(values)@
        } else {
            old(values)@.drop_last()
        },
{
    if values.len() > 0 {
        let _ = values.pop();
    }
}

/// `values` without any entry equal to `v`.
pub open spec fn without_value(values: Seq<u64>, v: u64) -> Seq<u64> {
    values.filter(|x: u64| x != v)
}

/// The values after a checkbox for `v` is set to `checked`: checking appends
/// `v` when it is absent; unchecking removes every occurrence.
pub open spec fn checked_values(values: Seq<u64>, v: u64, checked: bool) -> Seq<u64> {
    if checked {
        if values.contains(v) {
            values
        } else {
            values.push(v)
        }
    } else {
        without_value(values, v)
    }
}

/// Applies a checkbox change for value `v`.
pub fn set_checked(values: &mut Vec<u64>, v: u64, checked: bool)
    ensures
        final(values)@ == checked_values(old(values)@, v, checked),
{
    if checked {
        let mut i: usize = 0;
        let mut found = false;
        while i < values.len()
            invariant
                i <= values@.len(),
                values@ == old(values)@,
                found == (exists|k: int| 0 <= k < i && values@[k] == v),
            decreases values@.len() - i,
        {
            if values[i] == v {
                found = true;
            }
            i = i + 1;
        }
        if !found {
            values.push(v);
        }
    } else {
        let ghost start = values@;
        let mut kept: Vec<u64> = Vec::new();
        let mut i: usize = 0;
        while i < values.len()
            invariant
                i <= values@.len(),
                values@ == start,
                start == old(values)@,
                kept@ == without_value(start.take(i as int), v),
            decreases values@.len() - i,
        {
            proof {
                assert(start.take(i + 1).drop_last() == start.take(i as int));
                assert(start.take(i + 1).last() == start[i as int]);
                reveal(Seq::filter);
            }
            if values[i] != v {
                kept.push(values[i]);
            }
            i = i + 1;
        }
        assert(start.take(i as int) == start);
        *values = kept;
    }
}

/// Checking a box twice is checking it once; after checking, the value is
/// in the list; after unchecking, it is not.
pub proof fn law_checkbox_values(values: Seq<u64>, v: u64)
    ensures
        checked_values(checked_values(values, v, true), v, true) == checked_values(values, v, true),
        checked_values(values, v, true).contains(v),
        !checked_values(values, v, false).contains(v),
{
    if !values.contains(v) {
        assert(values.push(v)[values.len() as int] == v);
    }
    let f = without_value(values, v);
    if f.contains(v) {
        let w = choose|w: int| 0 <= w < f.len() && f[w] == v;
        values.lemma_filter_pred(|x: u64| x != v, w);
    }
}

/// No two entries are equal.
pub open spec fn distinct(values: Seq<Seq<char>>) -> bool {
    forall|a: int, b: int| 0 <= a < b < values.len() ==> values[a] != values[b]
}

/// Adding a tag never creates a duplicate entry.
pub proof fn law_add_tag_keeps_distinct(values: Seq<Seq<char>>, tag: Seq<char>)
    requires
        distinct(values),
    ensures
        distinct(add_tag_spec(values, tag)),
{
    let t = trim(tag);
    if t.len() > 0 && !values.contains(t) {
        let r = values.push(t);
        assert forall|a: int, b: int| 0 <= a < b < r.len() implies r[a] != r[b] by {
            if b == values.len() {
                assert(values[a] == r[a]);
            }
        }
    }
}

/// Adding the same tag twice is the same as adding it once.
pub proof fn law_add_tag_idempotent(values: Seq<Seq<char>>, tag: Seq<char>)
    ensures
        add_tag_spec(add_tag_spec(values, tag), tag) == add_tag_spec(values, tag),
{
    let t = trim(tag);
    if t.len() > 0 && !values.contains(t) {
        assert(values.push(t)[values.len() as int] == t);
    }
}

/// The text of a committed chip has no comma, is trimmed and is not empty, so
/// it can stand in a comma-separated value list.
proof fn lemma_chip_text_ready(input: Seq<char>)
    requires
        chip_text_spec(input).len() > 0,
    ensures
        is_trimmed(chip_text_spec(input)),
        lacks(chip_text_spec(input), ','),
{
    lemma_without_commas_lacks(input);
    lemma_trim_props(without_commas(input), ',');
}

proof fn lemma_without_commas_lacks(s: Seq<char>)
    ensures
        lacks(without_commas(s), ','),
    decreases s.len(),
{
    if s.len() > 0 {
        lemma_without_commas_lacks(s.drop_last());
    }
}

/// Committing typed text as a chip of a set-valued filter field keeps the
/// chips a valid list, and the rule rebuilt from the chips joined with `", "`
/// holds exactly those chips.
pub proof fn law_chip_commit_roundtrip(
    field: Seq<char>,
    op: Seq<char>,
    chips: Seq<Seq<char>>,
    input: Seq<char>,
)
    requires
        is_set_field_spec(field),
        list_ready(chips),
        chip_text_spec(input).len() > 0,
    ensures
        list_ready(push_unique_spec(chips, chip_text_spec(input))),
        rule_values_spec(
            raw_to_rule_spec(field, op, join(push_unique_spec(chips, chip_text_spec(input)), ", "@)),
        ) == push_unique_spec(chips, chip_text_spec(input)),
{
    let t = chip_text_spec(input);
    lemma_chip_text_ready(input);
    let next = push_unique_spec(chips, t);
    assert(list_ready(next)) by {
        if !chips.contains(t) {
            assert forall|k: int| 0 <= k < next.len() implies {
                &&& #[trigger] next[k].len() > 0
                &&& is_trimmed(next[k])
                &&& lacks(next[k], ',')
            } by {
                if k < chips.len() {
                    assert(next[k] == chips[k]);
                }
            }
        }
    }
    lemma_list_items_join(next);
    lemma_field_keys_distinct();
    assert(list_items(join(next, ", "@)) == next);
}

} // verus!
