use remux_dashboard::chips::{
    add_tag, chip_key_action, chip_text, contains_str, pop_chip, push_unique, remove_chip,
    set_checked, ChipAction,
};
use remux_dashboard::filters::{
    hides_operator, match_mode_key, match_mode_of, FilterMatchMode,
    field_label, is_set_field, ops_for_field, raw_to_rule, rule_for_field, rule_to_raw,
    rule_values, set_op_str, value_placeholder, default_new_rule, FilterRule, NumericOp, SetOp,
};
use remux_dashboard::text::{join_strings, list_items_of, trim_str};

fn strings(v: &[&str]) -> Vec<String> {
    v.iter().map(|s| s.to_string()).collect()
}

#[test]
fn chip_text_drops_commas_and_trims() {
    assert_eq!(chip_text("  action, "), "action");
    assert_eq!(chip_text(",,"), "");
    assert_eq!(chip_text(" sci-fi "), "sci-fi");
    assert_eq!(chip_text("a,b"), "ab");
}

#[test]
fn chip_key_actions() {
    match chip_key_action("Enter", " drama ") {
        ChipAction::Add(t) => assert_eq!(t, "drama"),
        _ => panic!("expected a chip"),
    }
    match chip_key_action(",", "comedy,") {
        ChipAction::Add(t) => assert_eq!(t, "comedy"),
        _ => panic!("expected a chip"),
    }
    assert!(matches!(chip_key_action("Enter", " , "), ChipAction::Ignore));
    assert!(matches!(chip_key_action("Backspace", ""), ChipAction::PopLast));
    assert!(matches!(chip_key_action("Backspace", "x"), ChipAction::Ignore));
    assert!(matches!(chip_key_action("a", "abc"), ChipAction::Ignore));
}

#[test]
fn add_tag_trims_and_skips_duplicates() {
    let mut tags = strings(&["kids"]);
    add_tag(&mut tags, "  family ");
    assert_eq!(tags, strings(&["kids", "family"]));
    add_tag(&mut tags, "family");
    assert_eq!(tags, strings(&["kids", "family"]));
    add_tag(&mut tags, "   ");
    assert_eq!(tags, strings(&["kids", "family"]));
}

#[test]
fn add_tag_twice_is_add_once() {
    let mut once = strings(&["a"]);
    add_tag(&mut once, " b ");
    let mut twice = strings(&["a"]);
    add_tag(&mut twice, " b ");
    add_tag(&mut twice, " b ");
    assert_eq!(once, twice);
}

#[test]
fn push_unique_and_contains() {
    let mut v = strings(&["x"]);
    push_unique(&mut v, "y");
    push_unique(&mut v, "x");
    assert_eq!(v, strings(&["x", "y"]));
    assert!(contains_str(&v, "y"));
    assert!(!contains_str(&v, "z"));
}

#[test]
fn remove_and_pop_chips() {
    let mut v = strings(&["a", "b", "c"]);
    remove_chip(&mut v, 1);
    assert_eq!(v, strings(&["a", "c"]));
    pop_chip(&mut v);
    assert_eq!(v, strings(&["a"]));
    pop_chip(&mut v);
    pop_chip(&mut v);
    assert!(v.is_empty());
}

#[test]
fn checkbox_values() {
    let mut v: Vec<u64> = vec![1, 3];
    set_checked(&mut v, 2, true);
    assert_eq!(v, vec![1, 3, 2]);
    set_checked(&mut v, 2, true);
    assert_eq!(v, vec![1, 3, 2]);
    set_checked(&mut v, 3, false);
    assert_eq!(v, vec![1, 2]);
    let mut w: Vec<u64> = vec![5, 5, 6];
    set_checked(&mut w, 5, false);
    assert_eq!(w, vec![6]);
}

#[test]
fn committed_chip_rebuilds_the_rule() {
    let mut chips = strings(&["Action", "Drama"]);
    let t = chip_text(" Comedy, ");
    push_unique(&mut chips, &t);
    let rule = raw_to_rule("genre", "is", &join_strings(&chips, ", "));
    assert_eq!(rule_values(&rule), strings(&["Action", "Drama", "Comedy"]));
}

#[test]
fn rule_round_trips_through_its_form_row() {
    let rules = vec![
        FilterRule::Year { op: NumericOp::Gt, value: 1999 },
        FilterRule::ParentalRating { op: NumericOp::Lt, value: 13 },
        FilterRule::Tag { op: SetOp::NotIn, values: strings(&["a b", "c"]) },
        FilterRule::HasTrailer { value: true },
        FilterRule::RatingCritic { op: NumericOp::Eq, value: "7.5".to_string() },
    ];
    for rule in rules {
        let (f, o, v) = rule_to_raw(&rule);
        let back = raw_to_rule(&f, &o, &v);
        assert_eq!(format!("{:?}", back), format!("{:?}", rule));
    }
}

#[test]
fn rule_to_raw_texts() {
    let (f, o, v) = rule_to_raw(&FilterRule::Year { op: NumericOp::NotEq, value: -5 });
    assert_eq!((f.as_str(), o.as_str(), v.as_str()), ("year", "not_eq", "-5"));
    let (f, o, v) = rule_to_raw(&FilterRule::Studio { op: SetOp::Is, values: strings(&["A", "B"]) });
    assert_eq!((f.as_str(), o.as_str(), v.as_str()), ("studio", "is", "A, B"));
    assert_eq!(set_op_str(SetOp::IsNot), "is_not");
    assert_eq!(set_op_str(SetOp::In), "is");
}

#[test]
fn raw_to_rule_reads_the_form() {
    match raw_to_rule("year", "lt", "abc") {
        FilterRule::Year { op, value } => {
            assert_eq!(op, NumericOp::Lt);
            assert_eq!(value, 0);
        }
        other => panic!("unexpected {:?}", other),
    }
    match raw_to_rule("parental_rating", "gt", "16") {
        FilterRule::ParentalRating { op, value } => {
            assert_eq!(op, NumericOp::Lt);
            assert_eq!(value, 16);
        }
        other => panic!("unexpected {:?}", other),
    }
    match raw_to_rule("unknown", "is_not", " x , ,y ") {
        FilterRule::Genre { op, values } => {
            assert_eq!(op, SetOp::NotIn);
            assert_eq!(values, strings(&["x", "y"]));
        }
        other => panic!("unexpected {:?}", other),
    }
    match raw_to_rule("has_trailer", "", "false") {
        FilterRule::HasTrailer { value } => assert!(!value),
        other => panic!("unexpected {:?}", other),
    }
}

#[test]
fn field_tables() {
    assert!(is_set_field("collection"));
    assert!(!is_set_field("year"));
    assert_eq!(field_label("rating_audience"), "Audience Rating");
    assert_eq!(value_placeholder("year"), "2020");
    let ops = ops_for_field("year");
    assert_eq!(ops[0], ("eq", "is"));
    assert_eq!(ops.len(), 4);
    assert!(ops_for_field("has_trailer").is_empty());
    match rule_for_field("tag") {
        FilterRule::Tag { op, values } => {
            assert_eq!(op, SetOp::In);
            assert!(values.is_empty());
        }
        other => panic!("unexpected {:?}", other),
    }
    assert!(matches!(default_new_rule(), FilterRule::Genre { op: SetOp::In, .. }));
    assert_eq!(match_mode_of("any"), FilterMatchMode::Any);
    assert_eq!(match_mode_of("whatever"), FilterMatchMode::All);
    assert_eq!(match_mode_key(FilterMatchMode::Any), "any");
    assert!(hides_operator("parental_rating"));
    assert!(!hides_operator("year"));
}

#[test]
fn list_items_and_trim() {
    assert_eq!(list_items_of(" a , b,,c "), strings(&["a", "b", "c"]));
    assert_eq!(trim_str("\u{3000} x \n"), "x");
}
