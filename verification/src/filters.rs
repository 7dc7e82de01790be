//! Smart-collection filter rules and their editing form: each rule is shown
//! as a (field, operator, value) triple of texts and rebuilt from one.

use vstd::prelude::*;
use crate::num::{fmt_int, i64_to_string, parse_i32_chars, parse_i32_spec, lemma_parse_fmt_i32, decimal_number, is_decimal_number, is_digit, sign_len, number_ok, mantissa_ok};
use crate::text::{chars_of, join, join_strings, lemma_list_items_join, lemma_list_items_ready, list_items, list_items_of, list_ready, str_eq, views};

verus! {

/// Comparison of a numeric field.
#[derive(Clone, Copy, PartialEq, Eq, Structural, Debug)]
pub enum NumericOp {
    Eq,
    NotEq,
    Gt,
    Lt,
}

/// Membership test of a set-valued field.
#[derive(Clone, Copy, PartialEq, Eq, Structural, Debug)]
pub enum SetOp {
    Is,
    IsNot,
    In,
    NotIn,
}

/// How the rules of a filter combine.
#[derive(Clone, Copy, PartialEq, Eq, Structural, Debug)]
pub enum FilterMatchMode {
    All,
    Any,
}

/// A smart-collection filter rule. Ratings are carried as the decimal text of
/// their value, as typed when it reads as a number, else `0`; the other
/// fields as they are stored.
#[derive(Debug)]
#[allow(inconsistent_fields)]
pub enum FilterRule {
    Year { op: NumericOp, value: i32 },
    RatingAudience { op: NumericOp, value: String },
    RatingCritic { op: NumericOp, value: String },
    ParentalRating { op: NumericOp, value: i32 },
    Genre { op: SetOp, values: Vec<String> },
    Certification { op: SetOp, values: Vec<String> },
    Tag { op: SetOp, values: Vec<String> },
    Studio { op: SetOp, values: Vec<String> },
    Country { op: SetOp, values: Vec<String> },
    Person { op: SetOp, values: Vec<String> },
    HasTrailer { value: bool },
    Collection { op: SetOp, values: Vec<String> },
}

/// The mathematical value of a [`FilterRule`].
#[allow(inconsistent_fields)]
pub enum RuleModel {
    Year { op: NumericOp, value: i32 },
    RatingAudience { op: NumericOp, value: Seq<char> },
    RatingCritic { op: NumericOp, value: Seq<char> },
    ParentalRating { op: NumericOp, value: i32 },
    Genre { op: SetOp, values: Seq<Seq<char>> },
    Certification { op: SetOp, values: Seq<Seq<char>> },
    Tag { op: SetOp, values: Seq<Seq<char>> },
    Studio { op: SetOp, values: Seq<Seq<char>> },
    Country { op: SetOp, values: Seq<Seq<char>> },
    Person { op: SetOp, values: Seq<Seq<char>> },
    HasTrailer { value: bool },
    Collection { op: SetOp, values: Seq<Seq<char>> },
}

impl View for FilterRule {
    type V = RuleModel;

    open spec fn view(&self) -> RuleModel {
        match self {
            FilterRule::Year { op, value } => RuleModel::Year { op: *op, value: *value },
            FilterRule::RatingAudience { op, value } => RuleModel::RatingAudience {
                op: *op,
                value: value@,
            },
            FilterRule::RatingCritic { op, value } => RuleModel::RatingCritic {
                op: *op,
                value: value@,
            },
            FilterRule::ParentalRating { op, value } => RuleModel::ParentalRating {
                op: *op,
                value: *value,
            },
            FilterRule::Genre { op, values } => RuleModel::Genre { op: *op, values: views(values@) },
            FilterRule::Certification { op, values } => RuleModel::Certification {
                op: *op,
                values: views(values@),
            },
            FilterRule::Tag { op, values } => RuleModel::Tag { op: *op, values: views(values@) },
            FilterRule::Studio { op, values } => RuleModel::Studio {
                op: *op,
                values: views(values@),
            },
            FilterRule::Country { op, values } => RuleModel::Country {
                op: *op,
                values: views(values@),
            },
            FilterRule::Person { op, values } => RuleModel::Person {
                op: *op,
                values: views(values@),
            },
            FilterRule::HasTrailer { value } => RuleModel::HasTrailer { value: *value },
            FilterRule::Collection { op, values } => RuleModel::Collection {
                op: *op,
                values: views(values@),
            },
        }
    }
}

/// The form key of a numeric operator.
pub open spec fn num_op_key(op: NumericOp) -> Seq<char> {
    match op {
        NumericOp::Eq => "eq"@,
        NumericOp::NotEq => "not_eq"@,
        NumericOp::Gt => "gt"@,
        NumericOp::Lt => "lt"@,
    }
}

/// The form key of a set operator: `is` for both inclusive operators,
/// `is_not` for both exclusive ones.
pub open spec fn set_op_key(op: SetOp) -> Seq<char> {
    match op {
        SetOp::Is | SetOp::In => "is"@,
        SetOp::IsNot | SetOp::NotIn => "is_not"@,
    }
}

/// The numeric operator a form key selects (`eq` for anything unknown).
pub open spec fn num_op_of(key: Seq<char>) -> NumericOp {
    if key == "not_eq"@ {
        NumericOp::NotEq
    } else if key == "gt"@ {
        NumericOp::Gt
    } else if key == "lt"@ {
        NumericOp::Lt
    } else {
        NumericOp::Eq
    }
}

/// The set operator a form key selects: `NotIn` for `is_not`, else `In`.
pub open spec fn set_op_of(key: Seq<char>) -> SetOp {
    if key == "is_not"@ {
        SetOp::NotIn
    } else {
        SetOp::In
    }
}

/// The (field, operator, value) texts a rule is shown as.
pub open spec fn rule_to_raw_spec(r: RuleModel) -> (Seq<char>, Seq<char>, Seq<char>) {
    match r {
        RuleModel::Year { op, value } => ("year"@, num_op_key(op), fmt_int(value as int)),
        RuleModel::RatingAudience { op, value } => ("rating_audience"@, num_op_key(op), value),
        RuleModel::RatingCritic { op, value } => ("rating_critic"@, num_op_key(op), value),
        RuleModel::ParentalRating { op, value } => (
            "parental_rating"@,
            num_op_key(op),
            fmt_int(value as int),
        ),
        RuleModel::Genre { op, values } => ("genre"@, set_op_key(op), join(values, ", "@)),
        RuleModel::Certification { op, values } => (
            "certification"@,
            set_op_key(op),
            join(values, ", "@),
        ),
        RuleModel::Tag { op, values } => ("tag"@, set_op_key(op), join(values, ", "@)),
        RuleModel::Studio { op, values } => ("studio"@, set_op_key(op), join(values, ", "@)),
        RuleModel::Country { op, values } => ("country"@, set_op_key(op), join(values, ", "@)),
        RuleModel::Person { op, values } => ("person"@, set_op_key(op), join(values, ", "@)),
        RuleModel::HasTrailer { value } => (
            "has_trailer"@,
            Seq::<char>::empty(),
            if value {
                "true"@
            } else {
                "false"@
            },
        ),
        RuleModel::Collection { op, values } => (
            "collection"@,
            set_op_key(op),
            join(values, ", "@),
        ),
    }
}

/// A whole number read from the form, `0` when the text is not one.
pub open spec fn int_or_zero(v: Seq<char>) -> i32 {
    match parse_i32_spec(v) {
        Some(n) => n,
        None => 0,
    }
}

/// A rating read from the form: the text when it reads as a number, else
/// `0`.
pub open spec fn rating_or_zero(v: Seq<char>) -> Seq<char> {
    if decimal_number(v) {
        v
    } else {
        seq!['0']
    }
}

/// The rule that a (field, operator, value) triple of the form describes.
/// Unknown fields give a genre rule; set values are the comma-separated
/// entries of the value; a parental rating is always "below".
pub open spec fn raw_to_rule_spec(field: Seq<char>, op: Seq<char>, value: Seq<char>) -> RuleModel {
    let so = set_op_of(op);
    let no = num_op_of(op);
    if field == "year"@ {
        RuleModel::Year { op: no, value: int_or_zero(value) }
    } else if field == "rating_audience"@ {
        RuleModel::RatingAudience { op: no, value: rating_or_zero(value) }
    } else if field == "rating_critic"@ {
        RuleModel::RatingCritic { op: no, value: rating_or_zero(value) }
    } else if field == "parental_rating"@ {
        RuleModel::ParentalRating { op: NumericOp::Lt, value: int_or_zero(value) }
    } else if field == "certification"@ {
        RuleModel::Certification { op: so, values: list_items(value) }
    } else if field == "tag"@ {
        RuleModel::Tag { op: so, values: list_items(value) }
    } else if field == "studio"@ {
        RuleModel::Studio { op: so, values: list_items(value) }
    } else if field == "country"@ {
        RuleModel::Country { op: so, values: list_items(value) }
    } else if field == "person"@ {
        RuleModel::Person { op: so, values: list_items(value) }
    } else if field == "has_trailer"@ {
        RuleModel::HasTrailer { value: value == "true"@ }
    } else if field == "collection"@ {
        RuleModel::Collection { op: so, values: list_items(value) }
    } else {
        RuleModel::Genre { op: so, values: list_items(value) }
    }
}

/// A rule in the form the editor itself produces: set rules use `In`/`NotIn`
/// with list-ready values, parental ratings compare with "below", ratings
/// read as numbers.
pub open spec fn is_canonical(r: RuleModel) -> bool {
    match r {
        RuleModel::ParentalRating { op, .. } => op == NumericOp::Lt,
        RuleModel::RatingAudience { value, .. } | RuleModel::RatingCritic { value, .. } => decimal_number(value),
        RuleModel::Genre { op, values }
        | RuleModel::Certification { op, values }
        | RuleModel::Tag { op, values }
        | RuleModel::Studio { op, values }
        | RuleModel::Country { op, values }
        | RuleModel::Person { op, values }
        | RuleModel::Collection { op, values } => (op == SetOp::In || op == SetOp::NotIn)
            && list_ready(values),
        _ => true,
    }
}

pub(crate) fn copy_strings(v: &Vec<String>) -> (r: Vec<String>)
    ensures
        views(r@) == views(v@),
{
    let mut r: Vec<String> = Vec::new();
    let mut k: usize = 0;
    while k < v.len()
        invariant
            k <= v@.len(),
            r@.len() == k,
            views(r@) == views(v@.take(k as int)),
        decreases v@.len() - k,
    {
        let ghost old_r = r@;
        let c = v[k].clone();
        r.push(c);
        proof {
            assert forall|j: int| 0 <= j < k + 1 implies views(r@)[j] == views(v@.take(k + 1))[j] by {
                if j < k {
                    assert(r@[j] == old_r[j]);
                    assert(views(old_r)[j] == views(v@.take(k as int))[j]);
                }
            }
            assert(views(r@) =~= views(v@.take(k + 1)));
        }
        k = k + 1;
    }
    assert(v@.take(k as int) == v@);
    r
}

fn num_op_str(op: NumericOp) -> (s: &'static str)
    ensures
        s@ == num_op_key(op),
{
    match op {
        NumericOp::Eq => "eq",
        NumericOp::NotEq => "not_eq",
        NumericOp::Gt => "gt",
        NumericOp::Lt => "lt",
    }
}

/// The form key of a set operator.
pub fn set_op_str(op: SetOp) -> (s: String)
    ensures
        s@ == set_op_key(op),
{
    match op {
        SetOp::Is | SetOp::In => String::from_str("is"),
        SetOp::IsNot | SetOp::NotIn => String::from_str("is_not"),
    }
}

fn rating_text(v: &str) -> (r: String)
    ensures
        r@ == rating_or_zero(v@),
{
    if is_decimal_number(v) {
        owned(v)
    } else {
        let r = owned("0");
        proof {
            reveal_strlit("0");
        }
        assert(r@ =~= seq!['0']);
        r
    }
}

/// `0` reads as a number.
pub proof fn lemma_zero_is_number()
    ensures
        decimal_number(seq!['0']),
{
    let z = seq!['0'];
    assert(sign_len(z) == 0);
    assert(z.skip(0) =~= z);
    assert(is_digit(z[0]));
    assert(mantissa_ok(z));
}

fn owned(s: &str) -> (r: String)
    ensures
        r@ == s@,
{
    String::from_str(s)
}

/// Decomposes a rule into the (field, operator, value) texts of its form row.
pub fn rule_to_raw(rule: &FilterRule) -> (r: (String, String, String))
    ensures
        (r.0@, r.1@, r.2@) == rule_to_raw_spec(rule@),
{
    match rule {
        FilterRule::Year { op, value } => (
            owned("year"),
            owned(num_op_str(*op)),
            i64_to_string(*value as i64),
        ),
        FilterRule::RatingAudience { op, value } => (
            owned("rating_audience"),
            owned(num_op_str(*op)),
            value.clone(),
        ),
        FilterRule::RatingCritic { op, value } => (
            owned("rating_critic"),
            owned(num_op_str(*op)),
            value.clone(),
        ),
        FilterRule::ParentalRating { op, value } => (
            owned("parental_rating"),
            owned(num_op_str(*op)),
            i64_to_string(*value as i64),
        ),
        FilterRule::Genre { op, values } => (owned("genre"), set_op_str(*op), join_strings(values, ", ")),
        FilterRule::Certification { op, values } => (
            owned("certification"),
            set_op_str(*op),
            join_strings(values, ", "),
        ),
        FilterRule::Tag { op, values } => (owned("tag"), set_op_str(*op), join_strings(values, ", ")),
        FilterRule::Studio { op, values } => (owned("studio"), set_op_str(*op), join_strings(values, ", ")),
        FilterRule::Country { op, values } => (
            owned("country"),
            set_op_str(*op),
            join_strings(values, ", "),
        ),
        FilterRule::Person { op, values } => (owned("person"), set_op_str(*op), join_strings(values, ", ")),
        FilterRule::HasTrailer { value } => (
            owned("has_trailer"),
            String::new(),
            if *value {
                owned("true")
            } else {
                owned("false")
            },
        ),
        FilterRule::Collection { op, values } => (
            owned("collection"),
            set_op_str(*op),
            join_strings(values, ", "),
        ),
    }
}

/// Builds the rule that a (field, operator, value) row of the form describes.
pub fn raw_to_rule(field: &str, op: &str, value: &str) -> (r: FilterRule)
    ensures
        r@ == raw_to_rule_spec(field@, op@, value@),
{
    let so = if str_eq(op, "is_not") {
        SetOp::NotIn
    } else {
        SetOp::In
    };
    let no = if str_eq(op, "not_eq") {
        NumericOp::NotEq
    } else if str_eq(op, "gt") {
        NumericOp::Gt
    } else if str_eq(op, "lt") {
        NumericOp::Lt
    } else {
        NumericOp::Eq
    };
    let number = match parse_i32_chars(&chars_of(value)) {
        Some(n) => n,
        None => 0,
    };
    if str_eq(field, "year") {
        FilterRule::Year { op: no, value: number }
    } else if str_eq(field, "rating_audience") {
        FilterRule::RatingAudience { op: no, value: rating_text(value) }
    } else if str_eq(field, "rating_critic") {
        FilterRule::RatingCritic { op: no, value: rating_text(value) }
    } else if str_eq(field, "parental_rating") {
        FilterRule::ParentalRating { op: NumericOp::Lt, value: number }
    } else if str_eq(field, "certification") {
        FilterRule::Certification { op: so, values: list_items_of(value) }
    } else if str_eq(field, "tag") {
        FilterRule::Tag { op: so, values: list_items_of(value) }
    } else if str_eq(field, "studio") {
        FilterRule::Studio { op: so, values: list_items_of(value) }
    } else if str_eq(field, "country") {
        FilterRule::Country { op: so, values: list_items_of(value) }
    } else if str_eq(field, "person") {
        FilterRule::Person { op: so, values: list_items_of(value) }
    } else if str_eq(field, "has_trailer") {
        FilterRule::HasTrailer { value: str_eq(value, "true") }
    } else if str_eq(field, "collection") {
        FilterRule::Collection { op: so, values: list_items_of(value) }
    } else {
        FilterRule::Genre { op: so, values: list_items_of(value) }
    }
}

/// Reading back a rule's form row rebuilds the rule, for every rule the editor
/// can produce.
pub proof fn lemma_rule_roundtrip(r: RuleModel)
    requires
        is_canonical(r),
    ensures
        ({
            let raw = rule_to_raw_spec(r);
            raw_to_rule_spec(raw.0, raw.1, raw.2) == r
        }),
{
    reveal_strlit("year");
    reveal_strlit("rating_audience");
    reveal_strlit("rating_critic");
    reveal_strlit("parental_rating");
    reveal_strlit("certification");
    reveal_strlit("tag");
    reveal_strlit("studio");
    reveal_strlit("country");
    reveal_strlit("person");
    reveal_strlit("has_trailer");
    reveal_strlit("collection");
    reveal_strlit("genre");
    reveal_strlit("is");
    reveal_strlit("is_not");
    reveal_strlit("eq");
    reveal_strlit("not_eq");
    reveal_strlit("gt");
    reveal_strlit("lt");
    reveal_strlit("true");
    reveal_strlit("false");
    lemma_field_keys_distinct();
    let raw = rule_to_raw_spec(r);
    match r {
        RuleModel::Year { op, value } => {
            lemma_num_op_key(op);
            lemma_parse_fmt_i32(value);
            assert(raw_to_rule_spec(raw.0, raw.1, raw.2) == r);
        },
        RuleModel::ParentalRating { op, value } => {
            lemma_parse_fmt_i32(value);
            assert(raw_to_rule_spec(raw.0, raw.1, raw.2) == r);
        },
        RuleModel::RatingAudience { op, value } => {
            lemma_num_op_key(op);
            assert(raw_to_rule_spec(raw.0, raw.1, raw.2) == r);
        },
        RuleModel::RatingCritic { op, value } => {
            lemma_num_op_key(op);
            assert(raw_to_rule_spec(raw.0, raw.1, raw.2) == r);
        },
        RuleModel::HasTrailer { value } => {
            assert("false"@.len() != "true"@.len());
            assert(raw_to_rule_spec(raw.0, raw.1, raw.2) == r);
        },
        RuleModel::Genre { op, values } => {
            lemma_list_items_join(values);
            lemma_set_op_key(op);
            assert(raw_to_rule_spec(raw.0, raw.1, raw.2) == r);
        },
        RuleModel::Certification { op, values } => {
            lemma_list_items_join(values);
            lemma_set_op_key(op);
            assert(raw_to_rule_spec(raw.0, raw.1, raw.2) == r);
        },
        RuleModel::Tag { op, values } => {
            lemma_list_items_join(values);
            lemma_set_op_key(op);
            assert(raw_to_rule_spec(raw.0, raw.1, raw.2) == r);
        },
        RuleModel::Studio { op, values } => {
            lemma_list_items_join(values);
            lemma_set_op_key(op);
            assert(raw_to_rule_spec(raw.0, raw.1, raw.2) == r);
        },
        RuleModel::Country { op, values } => {
            lemma_list_items_join(values);
            lemma_set_op_key(op);
            assert(raw_to_rule_spec(raw.0, raw.1, raw.2) == r);
        },
        RuleModel::Person { op, values } => {
            lemma_list_items_join(values);
            lemma_set_op_key(op);
            assert(raw_to_rule_spec(raw.0, raw.1, raw.2) == r);
        },
        RuleModel::Collection { op, values } => {
            lemma_list_items_join(values);
            lemma_set_op_key(op);
            assert(raw_to_rule_spec(raw.0, raw.1, raw.2) == r);
        },
    }
}

/// The field keys of the form are pairwise different.
pub proof fn lemma_field_keys_distinct()
    ensures
        "year"@.len() != "rating_audience"@.len(),
        "year"@.len() != "rating_critic"@.len(),
        "year"@.len() != "parental_rating"@.len(),
        "year"@.len() != "certification"@.len(),
        "year"@.len() != "tag"@.len(),
        "year"@.len() != "studio"@.len(),
        "year"@.len() != "country"@.len(),
        "year"@.len() != "person"@.len(),
        "year"@.len() != "has_trailer"@.len(),
        "year"@.len() != "collection"@.len(),
        "year"@.len() != "genre"@.len(),
        "rating_audience"@.len() != "rating_critic"@.len(),
        "rating_audience"@[0] != "parental_rating"@[0],
        "rating_audience"@.len() != "certification"@.len(),
        "rating_audience"@.len() != "tag"@.len(),
        "rating_audience"@.len() != "studio"@.len(),
        "rating_audience"@.len() != "country"@.len(),
        "rating_audience"@.len() != "person"@.len(),
        "rating_audience"@.len() != "has_trailer"@.len(),
        "rating_audience"@.len() != "collection"@.len(),
        "rating_audience"@.len() != "genre"@.len(),
        "rating_critic"@.len() != "parental_rating"@.len(),
        "rating_critic"@[0] != "certification"@[0],
        "rating_critic"@.len() != "tag"@.len(),
        "rating_critic"@.len() != "studio"@.len(),
        "rating_critic"@.len() != "country"@.len(),
        "rating_critic"@.len() != "person"@.len(),
        "rating_critic"@.len() != "has_trailer"@.len(),
        "rating_critic"@.len() != "collection"@.len(),
        "rating_critic"@.len() != "genre"@.len(),
        "parental_rating"@.len() != "certification"@.len(),
        "parental_rating"@.len() != "tag"@.len(),
        "parental_rating"@.len() != "studio"@.len(),
        "parental_rating"@.len() != "country"@.len(),
        "parental_rating"@.len() != "person"@.len(),
        "parental_rating"@.len() != "has_trailer"@.len(),
        "parental_rating"@.len() != "collection"@.len(),
        "parental_rating"@.len() != "genre"@.len(),
        "certification"@.len() != "tag"@.len(),
        "certification"@.len() != "studio"@.len(),
        "certification"@.len() != "country"@.len(),
        "certification"@.len() != "person"@.len(),
        "certification"@.len() != "has_trailer"@.len(),
        "certification"@.len() != "collection"@.len(),
        "certification"@.len() != "genre"@.len(),
        "tag"@.len() != "studio"@.len(),
        "tag"@.len() != "country"@.len(),
        "tag"@.len() != "person"@.len(),
        "tag"@.len() != "has_trailer"@.len(),
        "tag"@.len() != "collection"@.len(),
        "tag"@.len() != "genre"@.len(),
        "studio"@.len() != "country"@.len(),
        "studio"@[0] != "person"@[0],
        "studio"@.len() != "has_trailer"@.len(),
        "studio"@.len() != "collection"@.len(),
        "studio"@.len() != "genre"@.len(),
        "country"@.len() != "person"@.len(),
        "country"@.len() != "has_trailer"@.len(),
        "country"@.len() != "collection"@.len(),
        "country"@.len() != "genre"@.len(),
        "person"@.len() != "has_trailer"@.len(),
        "person"@.len() != "collection"@.len(),
        "person"@.len() != "genre"@.len(),
        "has_trailer"@.len() != "collection"@.len(),
        "has_trailer"@.len() != "genre"@.len(),
        "collection"@.len() != "genre"@.len(),
{
    reveal_strlit("year");
    reveal_strlit("rating_audience");
    reveal_strlit("rating_critic");
    reveal_strlit("parental_rating");
    reveal_strlit("certification");
    reveal_strlit("tag");
    reveal_strlit("studio");
    reveal_strlit("country");
    reveal_strlit("person");
    reveal_strlit("has_trailer");
    reveal_strlit("collection");
    reveal_strlit("genre");
    assert("year"@.len() != "rating_audience"@.len());
    assert("year"@.len() != "rating_critic"@.len());
    assert("year"@.len() != "parental_rating"@.len());
    assert("year"@.len() != "certification"@.len());
    assert("year"@.len() != "tag"@.len());
    assert("year"@.len() != "studio"@.len());
    assert("year"@.len() != "country"@.len());
    assert("year"@.len() != "person"@.len());
    assert("year"@.len() != "has_trailer"@.len());
    assert("year"@.len() != "collection"@.len());
    assert("year"@.len() != "genre"@.len());
    assert("rating_audience"@.len() != "rating_critic"@.len());
    assert("rating_audience"@[0] != "parental_rating"@[0]);
    assert("rating_audience"@.len() != "certification"@.len());
    assert("rating_audience"@.len() != "tag"@.len());
    assert("rating_audience"@.len() != "studio"@.len());
    assert("rating_audience"@.len() != "country"@.len());
    assert("rating_audience"@.len() != "person"@.len());
    assert("rating_audience"@.len() != "has_trailer"@.len());
    assert("rating_audience"@.len() != "collection"@.len());
    assert("rating_audience"@.len() != "genre"@.len());
    assert("rating_critic"@.len() != "parental_rating"@.len());
    assert("rating_critic"@[0] != "certification"@[0]);
    assert("rating_critic"@.len() != "tag"@.len());
    assert("rating_critic"@.len() != "studio"@.len());
    assert("rating_critic"@.len() != "country"@.len());
    assert("rating_critic"@.len() != "person"@.len());
    assert("rating_critic"@.len() != "has_trailer"@.len());
    assert("rating_critic"@.len() != "collection"@.len());
    assert("rating_critic"@.len() != "genre"@.len());
    assert("parental_rating"@.len() != "certification"@.len());
    assert("parental_rating"@.len() != "tag"@.len());
    assert("parental_rating"@.len() != "studio"@.len());
    assert("parental_rating"@.len() != "country"@.len());
    assert("parental_rating"@.len() != "person"@.len());
    assert("parental_rating"@.len() != "has_trailer"@.len());
    assert("parental_rating"@.len() != "collection"@.len());
    assert("parental_rating"@.len() != "genre"@.len());
    assert("certification"@.len() != "tag"@.len());
    assert("certification"@.len() != "studio"@.len());
    assert("certification"@.len() != "country"@.len());
    assert("certification"@.len() != "person"@.len());
    assert("certification"@.len() != "has_trailer"@.len());
    assert("certification"@.len() != "collection"@.len());
    assert("certification"@.len() != "genre"@.len());
    assert("tag"@.len() != "studio"@.len());
    assert("tag"@.len() != "country"@.len());
    assert("tag"@.len() != "person"@.len());
    assert("tag"@.len() != "has_trailer"@.len());
    assert("tag"@.len() != "collection"@.len());
    assert("tag"@.len() != "genre"@.len());
    assert("studio"@.len() != "country"@.len());
    assert("studio"@[0] != "person"@[0]);
    assert("studio"@.len() != "has_trailer"@.len());
    assert("studio"@.len() != "collection"@.len());
    assert("studio"@.len() != "genre"@.len());
    assert("country"@.len() != "person"@.len());
    assert("country"@.len() != "has_trailer"@.len());
    assert("country"@.len() != "collection"@.len());
    assert("country"@.len() != "genre"@.len());
    assert("person"@.len() != "has_trailer"@.len());
    assert("person"@.len() != "collection"@.len());
    assert("person"@.len() != "genre"@.len());
    assert("has_trailer"@.len() != "collection"@.len());
    assert("has_trailer"@.len() != "genre"@.len());
    assert("collection"@.len() != "genre"@.len());
}

proof fn lemma_set_op_key(op: SetOp)
    requires
        op == SetOp::In || op == SetOp::NotIn,
    ensures
        set_op_of(set_op_key(op)) == op,
{
    reveal_strlit("is");
    reveal_strlit("is_not");
    assert("is"@.len() != "is_not"@.len());
}

proof fn lemma_num_op_key(op: NumericOp)
    ensures
        num_op_of(num_op_key(op)) == op,
{
    reveal_strlit("eq");
    reveal_strlit("not_eq");
    reveal_strlit("gt");
    reveal_strlit("lt");
    {
        match op {
            NumericOp::Eq => {
                assert("eq"@.len() != "not_eq"@.len());
                assert("eq"@[0] != "gt"@[0]);
                assert("eq"@[0] != "lt"@[0]);
            },
            NumericOp::NotEq => {},
            NumericOp::Gt => {
                assert("gt"@.len() != "not_eq"@.len());
            },
            NumericOp::Lt => {
                assert("lt"@.len() != "not_eq"@.len());
                assert("lt"@[0] != "gt"@[0]);
            },
        }
    }
}

/// Every rule built from a form row is one the editor can produce.
pub proof fn lemma_raw_to_rule_canonical(field: Seq<char>, op: Seq<char>, value: Seq<char>)
    ensures
        is_canonical(raw_to_rule_spec(field, op, value)),
{
    lemma_list_items_ready(value);
    lemma_zero_is_number();
}

/// Rebuilding a rule from its own form row changes nothing: the form
/// normalises a row once, and a normalised row stays as it is.
pub proof fn lemma_raw_roundtrip_stable(field: Seq<char>, op: Seq<char>, value: Seq<char>)
    ensures
        ({
            let r = raw_to_rule_spec(field, op, value);
            let raw = rule_to_raw_spec(r);
            raw_to_rule_spec(raw.0, raw.1, raw.2) == r
        }),
{
    lemma_raw_to_rule_canonical(field, op, value);
    lemma_rule_roundtrip(raw_to_rule_spec(field, op, value));
}


/// Fields whose value is a set of strings (edited as chips).
pub open spec fn is_set_field_spec(key: Seq<char>) -> bool {
    key == "genre"@ || key == "certification"@ || key == "tag"@ || key == "studio"@
        || key == "country"@ || key == "person"@ || key == "collection"@
}

/// Returns true for fields whose values are a set of strings.
pub fn is_set_field(key: &str) -> (b: bool)
    ensures
        b == is_set_field_spec(key@),
{
    str_eq(key, "genre") || str_eq(key, "certification") || str_eq(key, "tag") || str_eq(
        key,
        "studio",
    ) || str_eq(key, "country") || str_eq(key, "person") || str_eq(key, "collection")
}

/// The label shown for a field key (empty for an unknown key).
pub open spec fn field_label_spec(key: Seq<char>) -> Seq<char> {
    if key == "genre"@ {
        "Genre"@
    } else if key == "year"@ {
        "Year"@
    } else if key == "rating_audience"@ {
        "Audience Rating"@
    } else if key == "rating_critic"@ {
        "Critic Rating"@
    } else if key == "parental_rating"@ {
        "Max Parental Rating"@
    } else if key == "certification"@ {
        "Certification"@
    } else if key == "tag"@ {
        "Tag"@
    } else if key == "studio"@ {
        "Studio"@
    } else if key == "has_trailer"@ {
        "Has Trailer"@
    } else if key == "country"@ {
        "Country"@
    } else if key == "person"@ {
        "Person"@
    } else if key == "collection"@ {
        "Catalog"@
    } else {
        ""@
    }
}

/// The label shown for a field key.
pub fn field_label(key: &str) -> (l: &'static str)
    ensures
        l@ == field_label_spec(key@),
{
    if str_eq(key, "genre") {
        "Genre"
    } else if str_eq(key, "year") {
        "Year"
    } else if str_eq(key, "rating_audience") {
        "Audience Rating"
    } else if str_eq(key, "rating_critic") {
        "Critic Rating"
    } else if str_eq(key, "parental_rating") {
        "Max Parental Rating"
    } else if str_eq(key, "certification") {
        "Certification"
    } else if str_eq(key, "tag") {
        "Tag"
    } else if str_eq(key, "studio") {
        "Studio"
    } else if str_eq(key, "has_trailer") {
        "Has Trailer"
    } else if str_eq(key, "country") {
        "Country"
    } else if str_eq(key, "person") {
        "Person"
    } else if str_eq(key, "collection") {
        "Catalog"
    } else {
        ""
    }
}

/// Fields compared numerically.
pub open spec fn is_numeric_field(key: Seq<char>) -> bool {
    key == "year"@ || key == "rating_audience"@ || key == "rating_critic"@
}

/// The operators offered for a field, as (key, label) pairs: comparisons for
/// numeric fields, none for parental rating and trailer, `is`/`is not` else.
pub open spec fn ops_for_field_spec(key: Seq<char>) -> Seq<(Seq<char>, Seq<char>)> {
    if is_numeric_field(key) {
        seq![("eq"@, "is"@), ("not_eq"@, "is not"@), ("gt"@, ">"@), ("lt"@, "<"@)]
    } else if key == "parental_rating"@ || key == "has_trailer"@ {
        Seq::empty()
    } else {
        seq![("is"@, "is"@), ("is_not"@, "is not"@)]
    }
}

/// The views of a list of (key, label) pairs.
pub open spec fn pair_views(v: Seq<(&'static str, &'static str)>) -> Seq<(Seq<char>, Seq<char>)> {
    v.map_values(|p: (&'static str, &'static str)| (p.0@, p.1@))
}

/// Returns the valid operators for a field key as (key, label) pairs.
pub fn ops_for_field(key: &str) -> (r: Vec<(&'static str, &'static str)>)
    ensures
        pair_views(r@) == ops_for_field_spec(key@),
{
    let mut r: Vec<(&'static str, &'static str)> = Vec::new();
    if str_eq(key, "year") || str_eq(key, "rating_audience") || str_eq(key, "rating_critic") {
        r.push(("eq", "is"));
        r.push(("not_eq", "is not"));
        r.push(("gt", ">"));
        r.push(("lt", "<"));
    } else if !(str_eq(key, "parental_rating") || str_eq(key, "has_trailer")) {
        r.push(("is", "is"));
        r.push(("is_not", "is not"));
    }
    assert(pair_views(r@) =~= ops_for_field_spec(key@));
    r
}

/// A label read back as a field key: small letters, spaces as `_`.
pub open spec fn label_key(label: Seq<char>) -> Seq<char> {
    crate::routes::ascii_lower(label).map_values(|c: char| if c == ' ' { '_' } else { c })
}

/// Each field is shown under its own name: for every field but the two
/// ratings, the parental rating and the catalog rule, the label read back
/// as a key is the field's key; the ratings are labelled by whose rating
/// they are; an unknown key has no label.
pub proof fn law_field_labels(key: Seq<char>)
    ensures
        (key == "genre"@ || key == "year"@ || key == "certification"@ || key == "tag"@ || key
            == "studio"@ || key == "has_trailer"@ || key == "country"@ || key == "person"@)
            ==> label_key(field_label_spec(key)) == key,
        field_label_spec("rating_audience"@) == "Audience Rating"@,
        field_label_spec("rating_critic"@) == "Critic Rating"@,
        field_label_spec("parental_rating"@) == "Max Parental Rating"@,
        field_label_spec("collection"@) == "Catalog"@,
        field_label_spec(key).len() > 0 <==> (is_set_field_spec(key) || is_numeric_field(key)
            || key == "parental_rating"@ || key == "has_trailer"@),
{
    reveal_strlit("genre");
    reveal_strlit("year");
    reveal_strlit("rating_audience");
    reveal_strlit("rating_critic");
    reveal_strlit("parental_rating");
    reveal_strlit("certification");
    reveal_strlit("tag");
    reveal_strlit("studio");
    reveal_strlit("has_trailer");
    reveal_strlit("country");
    reveal_strlit("person");
    reveal_strlit("collection");
    reveal_strlit("Genre");
    reveal_strlit("Year");
    reveal_strlit("Audience Rating");
    reveal_strlit("Critic Rating");
    reveal_strlit("Max Parental Rating");
    reveal_strlit("Certification");
    reveal_strlit("Tag");
    reveal_strlit("Studio");
    reveal_strlit("Has Trailer");
    reveal_strlit("Country");
    reveal_strlit("Person");
    reveal_strlit("Catalog");
    reveal_strlit("");
    lemma_field_keys_distinct();
    let l = field_label_spec(key);
    if key == "genre"@ || key == "year"@ || key == "certification"@ || key == "tag"@ || key
        == "studio"@ || key == "has_trailer"@ || key == "country"@ || key == "person"@ {
        assert(label_key(l) =~= key);
    }
}

/// Each numeric field's placeholder is a value the field takes as typed: a
/// whole number for the year and the parental rating, a number for the
/// ratings.
pub proof fn law_numeric_placeholders_read_back()
    ensures
        parse_i32_spec(value_placeholder_spec("year"@)) == Some(2020i32),
        parse_i32_spec(value_placeholder_spec("parental_rating"@)) == Some(13i32),
        decimal_number(value_placeholder_spec("rating_audience"@)),
        decimal_number(value_placeholder_spec("rating_critic"@)),
{
    reveal_strlit("year");
    reveal_strlit("rating_audience");
    reveal_strlit("rating_critic");
    reveal_strlit("parental_rating");
    reveal_strlit("2020");
    reveal_strlit("7.5");
    reveal_strlit("13");
    lemma_field_keys_distinct();
    lemma_parse_fmt_i32(2020);
    lemma_parse_fmt_i32(13);
    reveal_with_fuel(crate::num::dec, 5);
    assert(fmt_int(2020) =~= "2020"@);
    assert(fmt_int(13) =~= "13"@);
    let r = "7.5"@;
    assert(sign_len(r) == 0);
    assert(r.skip(0) =~= r);
    assert(is_digit(r[0]));
    assert(mantissa_ok(r));
}

/// The label a comparison is shown with in the operator select.
pub open spec fn comparison_label(op: NumericOp) -> Seq<char> {
    match op {
        NumericOp::Eq => "is"@,
        NumericOp::NotEq => "is not"@,
        NumericOp::Gt => ">"@,
        NumericOp::Lt => "<"@,
    }
}

/// Each operator offered for a field is shown with the label of the
/// comparison its key selects when the rule is built: for a numeric field
/// all four comparisons are offered once each, `>` selecting "greater" and
/// `<` "less"; for a set field `is` and `is not` select inclusion and
/// exclusion; parental rating and trailer offer none.
pub proof fn law_operator_labels(f: Seq<char>)
    ensures
        is_numeric_field(f) ==> {
            let ops = ops_for_field_spec(f);
            &&& ops.len() == 4
            &&& forall|i: int| 0 <= i < ops.len() ==> (#[trigger] ops[i]).1 == comparison_label(
                num_op_of(ops[i].0),
            )
            &&& forall|i: int| 0 <= i < ops.len() ==> num_op_key(num_op_of((#[trigger] ops[i]).0))
                == ops[i].0
            &&& forall|i: int, j: int| 0 <= i < j < ops.len() ==> num_op_of((#[trigger] ops[i]).0)
                != num_op_of((#[trigger] ops[j]).0)
            &&& forall|i: int| 0 <= i < ops.len() ==> (num_op_of((#[trigger] ops[i]).0)
                == NumericOp::Gt <==> ops[i].1 == ">"@)
            &&& forall|i: int| 0 <= i < ops.len() ==> (num_op_of((#[trigger] ops[i]).0)
                == NumericOp::Lt <==> ops[i].1 == "<"@)
        },
        (f == "parental_rating"@ || f == "has_trailer"@) ==> ops_for_field_spec(f).len() == 0,
        is_set_field_spec(f) ==> {
            let ops = ops_for_field_spec(f);
            &&& ops.len() == 2
            &&& forall|i: int| 0 <= i < ops.len() ==> (set_op_of((#[trigger] ops[i]).0)
                == SetOp::NotIn <==> ops[i].1 == "is not"@)
            &&& set_op_of(ops[0].0) != set_op_of(ops[1].0)
        },
{
    reveal_strlit("eq");
    reveal_strlit("not_eq");
    reveal_strlit("gt");
    reveal_strlit("lt");
    reveal_strlit("is");
    reveal_strlit("is not");
    reveal_strlit("is_not");
    reveal_strlit(">");
    reveal_strlit("<");
    reveal_strlit("year");
    reveal_strlit("rating_audience");
    reveal_strlit("rating_critic");
    reveal_strlit("parental_rating");
    reveal_strlit("has_trailer");
    reveal_strlit("genre");
    reveal_strlit("certification");
    reveal_strlit("tag");
    reveal_strlit("studio");
    reveal_strlit("country");
    reveal_strlit("person");
    reveal_strlit("collection");
    lemma_num_op_key(NumericOp::Eq);
    lemma_num_op_key(NumericOp::NotEq);
    lemma_num_op_key(NumericOp::Gt);
    lemma_num_op_key(NumericOp::Lt);
    assert(">"@.len() == 1 && "<"@.len() == 1 && "is"@.len() == 2 && "is not"@.len() == 6);
    assert(">"@[0] != "<"@[0]);
    assert("is"@.len() != "is_not"@.len());
    if is_set_field_spec(f) {
        assert(!is_numeric_field(f)) by {
            lemma_field_keys_distinct();
        }
        assert(f != "parental_rating"@ && f != "has_trailer"@) by {
            assert("parental_rating"@.len() == 15 && "has_trailer"@.len() == 11);
            assert("certification"@.len() == 13 && "collection"@.len() == 10);
            assert("genre"@.len() == 5 && "tag"@.len() == 3 && "studio"@.len() == 6);
            assert("country"@.len() == 7 && "person"@.len() == 6);
        }
    }
    if f == "parental_rating"@ || f == "has_trailer"@ {
        assert(!is_numeric_field(f)) by {
            lemma_field_keys_distinct();
            assert("has_trailer"@.len() == 11 && "year"@.len() == 4);
            assert("rating_audience"@.len() == 15 && "rating_critic"@.len() == 13);
            assert("parental_rating"@[0] != "rating_audience"@[0]);
        }
    }
}

/// The placeholder of the value input for a field.
pub open spec fn value_placeholder_spec(key: Seq<char>) -> Seq<char> {
    if key == "year"@ {
        "2020"@
    } else if key == "rating_audience"@ || key == "rating_critic"@ {
        "7.5"@
    } else if key == "parental_rating"@ {
        "13"@
    } else if key == "certification"@ {
        "PG-13"@
    } else if key == "country"@ {
        "US"@
    } else {
        "Action, Horror"@
    }
}

/// The placeholder of the value input for a field.
pub fn value_placeholder(key: &str) -> (p: &'static str)
    ensures
        p@ == value_placeholder_spec(key@),
{
    if str_eq(key, "year") {
        "2020"
    } else if str_eq(key, "rating_audience") || str_eq(key, "rating_critic") {
        "7.5"
    } else if str_eq(key, "parental_rating") {
        "13"
    } else if str_eq(key, "certification") {
        "PG-13"
    } else if str_eq(key, "country") {
        "US"
    } else {
        "Action, Horror"
    }
}

/// The values of a set rule; empty for the other rules.
pub open spec fn rule_values_spec(r: RuleModel) -> Seq<Seq<char>> {
    match r {
        RuleModel::Genre { values, .. }
        | RuleModel::Certification { values, .. }
        | RuleModel::Tag { values, .. }
        | RuleModel::Studio { values, .. }
        | RuleModel::Country { values, .. }
        | RuleModel::Person { values, .. }
        | RuleModel::Collection { values, .. } => values,
        _ => Seq::empty(),
    }
}

/// Extracts the values of a set rule.
pub fn rule_values(rule: &FilterRule) -> (r: Vec<String>)
    ensures
        views(r@) == rule_values_spec(rule@),
{
    match rule {
        FilterRule::Genre { values, .. }
        | FilterRule::Certification { values, .. }
        | FilterRule::Tag { values, .. }
        | FilterRule::Studio { values, .. }
        | FilterRule::Country { values, .. }
        | FilterRule::Person { values, .. }
        | FilterRule::Collection { values, .. } => copy_strings(values),
        _ => {
            let r: Vec<String> = Vec::new();
            assert(views(r@) =~= Seq::<Seq<char>>::empty());
            r
        },
    }
}

/// The operator key a field starts with when it is chosen: its first offered
/// operator, or none.
pub open spec fn default_op_spec(key: Seq<char>) -> Seq<char> {
    let ops = ops_for_field_spec(key);
    if ops.len() > 0 {
        ops[0].0
    } else {
        ""@
    }
}

/// The empty rule a row becomes when its field is changed to `field`.
pub fn rule_for_field(field: &str) -> (r: FilterRule)
    ensures
        r@ == raw_to_rule_spec(field@, default_op_spec(field@), ""@),
{
    let ops = ops_for_field(field);
    let op: &str = if ops.len() > 0 {
        ops[0].0
    } else {
        ""
    };
    proof {
        if ops@.len() > 0 {
            assert(pair_views(ops@)[0] == (ops@[0].0@, ops@[0].1@));
        }
    }
    raw_to_rule(field, op, "")
}

/// The rule a new row starts with: any genre.
pub fn default_new_rule() -> (r: FilterRule)
    ensures
        r@ == (RuleModel::Genre { op: SetOp::In, values: Seq::empty() }),
{
    let values: Vec<String> = Vec::new();
    assert(views(values@) =~= Seq::<Seq<char>>::empty());
    FilterRule::Genre { op: SetOp::In, values }
}

/// The match mode a selector value chooses: `any` for any rule, anything
/// else for all rules.
pub fn match_mode_of(value: &str) -> (m: FilterMatchMode)
    ensures
        m == if value@ == "any"@ {
            FilterMatchMode::Any
        } else {
            FilterMatchMode::All
        },
{
    if str_eq(value, "any") {
        FilterMatchMode::Any
    } else {
        FilterMatchMode::All
    }
}

/// The selector value of a match mode.
pub fn match_mode_key(m: FilterMatchMode) -> (k: &'static str)
    ensures
        k@ == match m {
            FilterMatchMode::All => "all"@,
            FilterMatchMode::Any => "any"@,
        },
{
    match m {
        FilterMatchMode::All => "all",
        FilterMatchMode::Any => "any",
    }
}

/// Is the operator selector hidden for a field? For the trailer flag and
/// the parental rating, whose operator is fixed.
pub fn hides_operator(field: &str) -> (b: bool)
    ensures
        b == (field@ == "has_trailer"@ || field@ == "parental_rating"@),
{
    str_eq(field, "has_trailer") || str_eq(field, "parental_rating")
}

} // verus!
