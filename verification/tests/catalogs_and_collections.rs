use remux_dashboard::catalogs::{
    catalog_collection_type, catalog_page_view, collection_source_for, failure_summary,
    item_count_badge, kind_badge, kind_choice_label, matches_search, merged_collection_type,
    name_matches, plan_merge, set_entry_checked, select_all_toggle, selected_positions, toggle_selected,
    CatalogEntry, MergePlan,
};
use remux_dashboard::collections::{
    collection_kind_label, collection_type_for, collection_type_label, default_sort_payload,
    initial_kind_key, initial_sort_direction, initial_type_key, parse_sort_key,
    parse_sort_direction, same_form_mode, shows_filter_editor, shows_kind_select,
    shows_sort_direction, sort_choices, sort_key_str, uses_smart_filter, CollectionKind,
    CollectionType, FormMode, MediaKind, SortDirection, SortKey,
};

const ADDON: u128 = 0x550e8400_e29b_41d4_a716_446655440000;

fn entry(id: &str, name: &str, cid: Option<u128>, kind: Option<MediaKind>) -> CatalogEntry {
    CatalogEntry {
        catalog_id: id.to_string(),
        name: name.to_string(),
        collection_id: cid,
        media_kind: kind,
        item_count: None,
        enabled: true,
    }
}

fn strings(v: &[&str]) -> Vec<String> {
    v.iter().map(|s| s.to_string()).collect()
}

#[test]
fn collection_source_strips_the_addon_prefix() {
    let s = collection_source_for(ADDON, "addon:550e8400-e29b-41d4-a716-446655440000:top");
    assert_eq!(s, "550e8400-e29b-41d4-a716-446655440000:top");
    let s = collection_source_for(ADDON, "other:top");
    assert_eq!(s, "550e8400-e29b-41d4-a716-446655440000:other:top");
}

#[test]
fn collection_types() {
    assert_eq!(collection_type_for(Some(MediaKind::Series)), "tvshows");
    assert_eq!(collection_type_for(Some(MediaKind::Other)), "movies");
    assert_eq!(collection_type_for(None), "movies");
    assert_eq!(merged_collection_type(&vec![]), "movies");
    assert_eq!(merged_collection_type(&vec![Some(MediaKind::Track), Some(MediaKind::Track)]), "music");
    assert_eq!(merged_collection_type(&vec![Some(MediaKind::Track), None]), "mixed");
    assert_eq!(merged_collection_type(&vec![None, None]), "movies");
    assert_eq!(catalog_collection_type("", Some(MediaKind::Collection)), "collections");
    assert_eq!(catalog_collection_type("music", Some(MediaKind::Movie)), "music");
}

#[test]
fn labels_and_badges() {
    assert_eq!(kind_badge(Some(MediaKind::Series)), "Shows");
    assert_eq!(kind_badge(None), "Movies");
    assert_eq!(item_count_badge(Some(42)), "42 items");
    assert_eq!(item_count_badge(None), "not indexed yet");
    assert_eq!(kind_choice_label("tvshows"), "TV Shows");
    assert_eq!(kind_choice_label(""), "Auto-detect (per catalog)");
    assert_eq!(collection_type_label(Some(CollectionType::Boxsets)), "Collections");
    assert_eq!(collection_type_label(None), "Unknown");
    assert_eq!(collection_kind_label(Some(CollectionKind::Catalog)), "Catalog");
    assert_eq!(collection_kind_label(None), "");
}

#[test]
fn search_is_case_insensitive() {
    assert!(matches_search("Top Movies", "  movies "));
    assert!(matches_search("ÉCOLE", "école"));
    assert!(matches_search("anything", "   "));
    assert!(!matches_search("Series", "film"));
    assert!(name_matches("abc", "bc"));
    assert!(!name_matches("ab", "abc"));
}

#[test]
fn page_view_of_catalogs() {
    let cats = vec![
        entry("addon:550e8400-e29b-41d4-a716-446655440000:a", "Popular Movies", Some(1), None),
        entry("addon:550e8400-e29b-41d4-a716-446655440000:b", "Popular Shows", Some(2), None),
        entry("addon:550e8400-e29b-41d4-a716-446655440000:c", "Not indexed", None, None),
        entry("addon:550e8400-e29b-41d4-a716-446655440000:d", "Trending", Some(4), None),
    ];
    let sources = strings(&["550e8400-e29b-41d4-a716-446655440000:b"]);
    let selected = strings(&["addon:550e8400-e29b-41d4-a716-446655440000:a"]);
    let v = catalog_page_view(&cats, ADDON, &sources, false, "popular", &selected);
    assert_eq!(v.eligible, vec![0, 1, 3]);
    assert_eq!(v.skipped_count, 1);
    assert_eq!(v.imported_count, 1);
    assert_eq!(v.displayed, vec![0, 1]);
    assert_eq!(v.selectable_visible, vec![0]);
    assert!(v.all_selected);
    let m = catalog_page_view(&cats, ADDON, &sources, true, "", &selected);
    assert_eq!(m.selectable_visible, vec![0, 1, 3]);
    assert!(!m.all_selected);
}

#[test]
fn selection_toggles() {
    let mut sel = strings(&["a"]);
    toggle_selected(&mut sel, "b", false);
    assert_eq!(sel, strings(&["a", "b"]));
    toggle_selected(&mut sel, "a", false);
    assert_eq!(sel, strings(&["b"]));
    toggle_selected(&mut sel, "c", true);
    assert_eq!(sel, strings(&["b"]));
    let mut sel = strings(&["x"]);
    select_all_toggle(&mut sel, &strings(&["x", "y"]), false);
    assert_eq!(sel, strings(&["x", "y"]));
    select_all_toggle(&mut sel, &strings(&["x", "y"]), true);
    assert!(sel.is_empty());
}

#[test]
fn checkbox_entries() {
    let mut res = strings(&["stream"]);
    set_entry_checked(&mut res, "catalog", true);
    set_entry_checked(&mut res, "catalog", true);
    assert_eq!(res, strings(&["stream", "catalog"]));
    set_entry_checked(&mut res, "stream", false);
    assert_eq!(res, strings(&["catalog"]));
}

#[test]
fn merge_plans() {
    let cats = vec![
        entry("a", "A", Some(10), Some(MediaKind::Movie)),
        entry("b", "B", None, Some(MediaKind::Movie)),
        entry("c", "C", Some(30), Some(MediaKind::Movie)),
    ];
    assert!(matches!(plan_merge("  ", "", &cats, &strings(&["a"])), MergePlan::NeedsName));
    assert!(matches!(plan_merge("Mine", "", &cats, &vec![]), MergePlan::NothingSelected));
    match plan_merge(" Mine ", "", &cats, &strings(&["c", "a", "b"])) {
        MergePlan::Create { name, collection_type, collection_ids } => {
            assert_eq!(name, "Mine");
            assert_eq!(collection_type, "movies");
            assert_eq!(collection_ids, vec![10, 30]);
        }
        _ => panic!("expected a plan"),
    }
    match plan_merge("M", "tvshows", &cats, &strings(&["a"])) {
        MergePlan::Create { collection_type, .. } => assert_eq!(collection_type, "tvshows"),
        _ => panic!("expected a plan"),
    }
    assert_eq!(selected_positions(&cats, &strings(&["c", "a"])), vec![0, 2]);
}

#[test]
fn failure_summaries() {
    assert_eq!(failure_summary(&vec![], 3), None);
    assert_eq!(
        failure_summary(&strings(&["A: boom", "B: no item id returned"]), 5),
        Some("2 of 5 failed: A: boom; B: no item id returned".to_string())
    );
}

#[test]
fn collection_form_decisions() {
    assert_eq!(initial_type_key(Some(MediaKind::Mixed), Some(CollectionType::Movies)), "mixed");
    assert_eq!(initial_type_key(None, Some(CollectionType::Boxsets)), "collections");
    assert_eq!(initial_type_key(None, Some(CollectionType::Mixed)), "movies");
    assert_eq!(initial_type_key(None, None), "movies");
    assert_eq!(initial_kind_key(None), "smart");
    assert_eq!(initial_kind_key(Some(CollectionKind::Manual)), "manual");
    assert!(uses_smart_filter("catalog"));
    assert!(!uses_smart_filter("manual"));
    assert!(!shows_kind_select("collections"));
    assert!(shows_filter_editor("smart", "movies"));
    assert!(!shows_filter_editor("smart", "collections"));
    assert!(!shows_sort_direction("Random"));
    assert!(!shows_sort_direction(""));
    assert!(shows_sort_direction("SortName"));
    assert_eq!(initial_sort_direction(None), SortDirection::Descending);
    assert!(same_form_mode(FormMode::Edit(3), FormMode::Edit(3)));
    assert!(!same_form_mode(FormMode::Edit(3), FormMode::Create));
}

#[test]
fn default_sort_payloads() {
    let (a, b) = default_sort_payload("", "Descending");
    assert_eq!(a, Some(vec![]));
    assert_eq!(b, Some(vec![]));
    let (a, b) = default_sort_payload("PremiereDate", "Descending");
    assert_eq!(a, Some(vec![SortKey::PremiereDate]));
    assert_eq!(b, Some(vec![SortDirection::Descending]));
    let (a, b) = default_sort_payload("SortName", "sideways");
    assert_eq!(a, Some(vec![SortKey::SortName]));
    assert_eq!(b, Some(vec![SortDirection::Ascending]));
    let (a, b) = default_sort_payload("Bogus", "Ascending");
    assert_eq!(a, None);
    assert_eq!(b, None);
    assert_eq!(parse_sort_direction("Descending"), SortDirection::Descending);
}

#[test]
fn sort_keys_round_trip() {
    let all = sort_choices(true);
    assert_eq!(all.len(), 13);
    assert_eq!(all[0], SortKey::CatalogOrder);
    assert_eq!(sort_choices(false).len(), 12);
    for k in all {
        assert_eq!(parse_sort_key(sort_key_str(k)), Some(k));
    }
}
