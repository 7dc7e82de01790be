//! Stream groups: the stream filter editor (rules on resolution, quality
//! and codec) and the summaries the group list shows.

use vstd::prelude::*;
use crate::chips::{set_checked, checked_values};
use crate::filters::{FilterMatchMode, SetOp};
use crate::text::{string_of, push_str, str_eq, views, join, join_strings};
use crate::num::{fmt_int, push_i64};

verus! {

/// The stream property a rule looks at.
#[derive(Clone, Copy, PartialEq, Eq, Structural, Debug)]
pub enum StreamField {
    Resolution,
    Quality,
    Codec,
}

/// A stream filter rule: the property, whether the listed values are kept
/// (`In`) or excluded (`NotIn`), and the values, each the position of the
/// value in the server's list of values for that property.
pub struct StreamRule {
    pub field: StreamField,
    pub op: SetOp,
    pub values: Vec<u64>,
}

/// The model of a stream rule.
pub struct StreamRuleModel {
    pub field: StreamField,
    pub op: SetOp,
    pub values: Seq<u64>,
}

impl View for StreamRule {
    type V = StreamRuleModel;

    open spec fn view(&self) -> StreamRuleModel {
        StreamRuleModel { field: self.field, op: self.op, values: self.values@ }
    }
}

/// The rules of a filter, as models.
pub open spec fn rule_views(rules: Seq<StreamRule>) -> Seq<StreamRuleModel> {
    rules.map_values(|r: StreamRule| r@)
}

/// The key of a stream property in the editor.
pub open spec fn field_key_spec(f: StreamField) -> Seq<char> {
    match f {
        StreamField::Resolution => "resolution"@,
        StreamField::Quality => "quality"@,
        StreamField::Codec => "codec"@,
    }
}

/// The stream property an editor key selects; unknown keys mean
/// resolution.
pub open spec fn field_of(key: Seq<char>) -> StreamField {
    if key == "quality"@ {
        StreamField::Quality
    } else if key == "codec"@ {
        StreamField::Codec
    } else {
        StreamField::Resolution
    }
}

/// The key of a stream property in the editor.
pub fn field_key(f: StreamField) -> (r: &'static str)
    ensures
        r@ == field_key_spec(f),
{
    match f {
        StreamField::Resolution => "resolution",
        StreamField::Quality => "quality",
        StreamField::Codec => "codec",
    }
}

/// The stream property an editor key selects.
pub fn parse_field(key: &str) -> (r: StreamField)
    ensures
        r == field_of(key@),
{
    if str_eq(key, "quality") {
        StreamField::Quality
    } else if str_eq(key, "codec") {
        StreamField::Codec
    } else {
        StreamField::Resolution
    }
}

/// A property shown in the editor and selected again stays the same.
pub proof fn law_field_roundtrip(f: StreamField)
    ensures
        field_of(field_key_spec(f)) == f,
{
    reveal_strlit("resolution");
    reveal_strlit("quality");
    reveal_strlit("codec");
    assert("resolution"@.len() != "quality"@.len());
    assert("resolution"@.len() != "codec"@.len());
    assert("codec"@.len() != "quality"@.len());
}

/// A fresh rule on a property: keep-listed, no values.
pub open spec fn fresh_rule(f: StreamField) -> StreamRuleModel {
    StreamRuleModel { field: f, op: SetOp::In, values: Seq::empty() }
}

/// Picking a property for rule `idx` replaces it with a fresh rule on that
/// property (no rule at `idx`: nothing changes).
pub fn change_field(rules: &mut Vec<StreamRule>, idx: usize, key: &str)
    ensures
        rule_views(final(rules)@) == if idx < old(rules)@.len() {
            rule_views(old(rules)@).update(idx as int, fresh_rule(field_of(key@)))
        } else {
            rule_views(old(rules)@)
        },
{
    if idx < rules.len() {
        let r = StreamRule { field: parse_field(key), op: SetOp::In, values: Vec::new() };
        assert(r@.values =~= Seq::<u64>::empty());
        rules.set(idx, r);
        assert(rule_views(rules@) =~= rule_views(old(rules)@).update(idx as int, fresh_rule(field_of(key@))));
    }
}

/// The operator an editor value selects: `not_in` excludes, anything else
/// keeps.
pub open spec fn op_of(value: Seq<char>) -> SetOp {
    if value == "not_in"@ {
        SetOp::NotIn
    } else {
        SetOp::In
    }
}

/// Picking an operator for rule `idx` keeps its property and values.
pub fn change_op(rules: &mut Vec<StreamRule>, idx: usize, value: &str)
    ensures
        rule_views(final(rules)@) == if idx < old(rules)@.len() {
            rule_views(old(rules)@).update(
                idx as int,
                StreamRuleModel { op: op_of(value@), ..old(rules)@[idx as int]@ },
            )
        } else {
            rule_views(old(rules)@)
        },
{
    if idx < rules.len() {
        let op = if str_eq(value, "not_in") {
            SetOp::NotIn
        } else {
            SetOp::In
        };
        let values = rules[idx].values.clone();
        let r = StreamRule { field: rules[idx].field, op, values };
        rules.set(idx, r);
        assert(rule_views(rules@) =~= rule_views(old(rules)@).update(
            idx as int,
            StreamRuleModel { op: op_of(value@), ..old(rules)@[idx as int]@ },
        ));
    }
}

/// A checkbox for value `v` of property `field` changed on rule `idx`: the
/// value is added or removed as in any checkbox list, when the rule is on
/// that property.
pub fn toggle_value(rules: &mut Vec<StreamRule>, idx: usize, field: StreamField, v: u64, checked: bool)
    ensures
        rule_views(final(rules)@) == if idx < old(rules)@.len() && old(rules)@[idx as int].field
            == field {
            rule_views(old(rules)@).update(
                idx as int,
                StreamRuleModel {
                    values: checked_values(old(rules)@[idx as int].values@, v, checked),
                    ..old(rules)@[idx as int]@
                },
            )
        } else {
            rule_views(old(rules)@)
        },
{
    if idx < rules.len() && rules[idx].field == field {
        let mut values = rules[idx].values.clone();
        set_checked(&mut values, v, checked);
        let r = StreamRule { field: rules[idx].field, op: rules[idx].op, values };
        rules.set(idx, r);
        assert(rule_views(rules@) =~= rule_views(old(rules)@).update(
            idx as int,
            StreamRuleModel {
                values: checked_values(old(rules)@[idx as int].values@, v, checked),
                ..old(rules)@[idx as int]@
            },
        ));
    }
}

/// Removes rule `idx`, when there is one.
pub fn remove_rule(rules: &mut Vec<StreamRule>, idx: usize)
    ensures
        rule_views(final(rules)@) == if idx < old(rules)@.len() {
            rule_views(old(rules)@).remove(idx as int)
        } else {
            rule_views(old(rules)@)
        },
{
    if idx < rules.len() {
        let _ = rules.remove(idx);
        assert(rule_views(rules@) =~= rule_views(old(rules)@).remove(idx as int));
    }
}

/// Adds a fresh resolution rule at the end.
pub fn add_rule(rules: &mut Vec<StreamRule>)
    ensures
        rule_views(final(rules)@) == rule_views(old(rules)@).push(fresh_rule(StreamField::Resolution)),
{
    let r = StreamRule { field: StreamField::Resolution, op: SetOp::In, values: Vec::new() };
    assert(r@.values =~= Seq::<u64>::empty());
    rules.push(r);
    assert(rule_views(rules@) =~= rule_views(old(rules)@).push(fresh_rule(StreamField::Resolution)));
}

/// The summary of a rule in the group list: its value labels joined with
/// `/`, after `NOT ` when the values are excluded.
pub fn rule_summary(op: SetOp, labels: &Vec<String>) -> (r: String)
    ensures
        r@ == (if op == SetOp::NotIn {
            "NOT "@
        } else {
            Seq::<char>::empty()
        }) + join(views(labels@), "/"@),
{
    let mut out: Vec<char> = Vec::new();
    if op == SetOp::NotIn {
        push_str(&mut out, "NOT ");
    }
    let joined = join_strings(labels, "/");
    push_str(&mut out, joined.as_str());
    string_of(&out)
}

/// How a group's rules combine, shown only with more than one rule.
pub fn match_connector(mode: FilterMatchMode, rule_count: usize) -> (r: Option<&'static str>)
    ensures
        match r {
            Some(s) => rule_count > 1 && s@ == if mode == FilterMatchMode::All {
                "AND"@
            } else {
                "OR"@
            },
            None => rule_count <= 1,
        },
{
    if rule_count > 1 {
        Some(
            if mode == FilterMatchMode::All {
                "AND"
            } else {
                "OR"
            },
        )
    } else {
        None
    }
}

/// The priority note of a group, `priority {n}`.
pub fn priority_note(priority: i64) -> (r: String)
    ensures
        r@ == "priority "@ + fmt_int(priority as int),
{
    let mut out: Vec<char> = Vec::new();
    push_str(&mut out, "priority ");
    push_i64(priority, &mut out);
    string_of(&out)
}

/// Whether ungrouped streams are shown, as the server configuration says;
/// shown when it says nothing.
pub fn shows_ungrouped(configured: Option<bool>) -> (b: bool)
    ensures
        b == match configured {
            Some(v) => v,
            None => true,
        },
{
    match configured {
        Some(v) => v,
        None => true,
    }
}

/// What ticking "Show ungrouped streams" saves: the new value, written into
/// the loaded server configuration; nothing is sent while no configuration
/// has been loaded.
pub fn ungrouped_update(config_loaded: bool, checked: bool) -> (r: Option<bool>)
    ensures
        r == if config_loaded {
            Some(checked)
        } else {
            None::<bool>
        },
{
    if config_loaded {
        Some(checked)
    } else {
        None
    }
}

} // verus!
