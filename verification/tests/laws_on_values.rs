use remux_dashboard::catalogs::toggle_selected;
use remux_dashboard::filters::{raw_to_rule, rule_to_raw};
use remux_dashboard::reorder::{reorder_updates, MoveDirection};
use remux_dashboard::text::{join_strings, list_items_of};

#[test]
fn list_items_are_stable_when_rejoined() {
    let once = list_items_of(" b ,, a ,c,");
    let twice = list_items_of(&join_strings(&once, ", "));
    assert_eq!(once, twice);
    assert_eq!(once, vec!["b".to_string(), "a".to_string(), "c".to_string()]);
}

#[test]
fn form_row_is_stable_after_one_pass() {
    for (f, o, v) in [("year", "gt", " 12x"), ("tag", "is_not", "a,, b "), ("parental_rating", "eq", "7"), ("nope", "", "")] {
        let r1 = raw_to_rule(f, o, v);
        let (f2, o2, v2) = rule_to_raw(&r1);
        let r2 = raw_to_rule(&f2, &o2, &v2);
        assert_eq!(format!("{:?}", r1), format!("{:?}", r2));
    }
}

#[test]
fn reordering_gives_consecutive_keys() {
    let keys = vec![Some(5), None, Some(30), Some(30)];
    let ups = reorder_updates(&keys, 2, MoveDirection::Up).unwrap();
    let mut after = keys.clone();
    for (item, key) in ups {
        after[item] = Some(key);
    }
    // new order: 0, 2, 1, 3
    assert_eq!(after[0], Some(0));
    assert_eq!(after[2], Some(10));
    assert_eq!(after[1], Some(20));
    assert_eq!(after[3], Some(30));
}

#[test]
fn clicking_a_card_twice_restores_the_selection() {
    let start = vec!["a".to_string(), "b".to_string()];
    for id in ["a", "c"] {
        let mut sel = start.clone();
        toggle_selected(&mut sel, id, false);
        toggle_selected(&mut sel, id, false);
        let mut s1 = sel.clone();
        s1.sort();
        let mut s0 = start.clone();
        s0.sort();
        assert_eq!(s1, s0);
    }
}
