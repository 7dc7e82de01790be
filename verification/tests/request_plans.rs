use remux_dashboard::activity::{activity_failure_text, activity_query, severity_or_default, ActivityFailure};
use remux_dashboard::catalogs::{
    collection_kind_key, creation_failure, merge_refusal_text, merged_request, plan_merge,
    separate_request, CatalogEntry, CollectionKind, MergePlan,
};
use remux_dashboard::collections::MediaKind;
use remux_dashboard::devices::{
    device_query, devices_after, devices_failure_text, revoke_all_target, DevicesEvent,
    DevicesFailure, DevicesView,
};
use remux_dashboard::filters::{raw_to_rule, FilterRule, NumericOp, SetOp};
use remux_dashboard::num::is_decimal_number;
use remux_dashboard::iptv::{
    channel_filters_after, initial_channel_filters, ChannelFilterEvent, ChannelFilters,
};
use remux_dashboard::session::{account_step_check, wizard_after, WizardEvent, WizardState};
use remux_dashboard::settings::{lowercase_stable, playback_payload, HwAccel, PlaybackForm};
use remux_dashboard::streams::{shows_ungrouped, ungrouped_update};
use remux_dashboard::users::{
    api_key_error_text, api_key_request, first_save_step, next_save_step, UserSaveStep,
};

const ADDON: u128 = 0x0123_4567_89ab_cdef_0123_4567_89ab_cdef;
const OTHER: u128 = 0xfedc_ba98_7654_3210_fedc_ba98_7654_3210;

fn plan_entry(local: &str, name: &str, collection_id: Option<u128>, kind: Option<MediaKind>) -> CatalogEntry {
    CatalogEntry {
        catalog_id: format!("addon:{}:{}", uuid::Uuid::from_u128(ADDON), local),
        name: name.to_string(),
        collection_id,
        media_kind: kind,
        item_count: Some(3),
        enabled: true,
    }
}

fn owned_tags(v: &[&str]) -> Vec<String> {
    v.iter().map(|s| s.to_string()).collect()
}

#[test]
fn separate_request_for_an_indexed_catalog() {
    let c = plan_entry("top", "Top Movies", Some(7), Some(MediaKind::Series));
    let tags = owned_tags(&["kids", "weekend"]);
    let q = separate_request(&c, ADDON, "", &tags).expect("an indexed catalog gets a request");
    assert_eq!(q.name, "Top Movies");
    assert_eq!(q.collection_type, "tvshows");
    assert_eq!(q.collection_kind, CollectionKind::Catalog);
    assert!(!q.promoted);
    assert_eq!(q.catalog_op, SetOp::Is);
    assert_eq!(q.catalog_ids, vec![7u128]);
    assert_eq!(
        q.collection_source.as_deref(),
        Some(format!("{}:top", uuid::Uuid::from_u128(ADDON)).as_str())
    );
    assert_eq!(q.tags, Some(tags));
}

#[test]
fn separate_request_keeps_the_chosen_type_and_drops_empty_tags() {
    let c = plan_entry("top", "Top", Some(9), Some(MediaKind::Series));
    let q = separate_request(&c, ADDON, "mixed", &Vec::new()).unwrap();
    assert_eq!(q.collection_type, "mixed");
    assert_eq!(q.tags, None);
}

#[test]
fn separate_request_keeps_another_addons_prefix_in_the_source() {
    let mut c = plan_entry("x", "X", Some(1), None);
    c.catalog_id = format!("addon:{}:x", uuid::Uuid::from_u128(OTHER));
    let q = separate_request(&c, ADDON, "", &Vec::new()).unwrap();
    assert_eq!(
        q.collection_source.unwrap(),
        format!("{}:addon:{}:x", uuid::Uuid::from_u128(ADDON), uuid::Uuid::from_u128(OTHER))
    );
    assert_eq!(q.collection_type, "movies");
}

#[test]
fn separate_request_skips_a_catalog_not_indexed() {
    let c = plan_entry("top", "Top", None, Some(MediaKind::Movie));
    assert!(separate_request(&c, ADDON, "", &Vec::new()).is_none());
}

#[test]
fn merged_request_from_a_planned_merge() {
    let cats = vec![
        plan_entry("a", "A", Some(1), Some(MediaKind::Movie)),
        plan_entry("b", "B", None, Some(MediaKind::Movie)),
        plan_entry("c", "C", Some(3), Some(MediaKind::Series)),
    ];
    let selected = vec![cats[0].catalog_id.clone(), cats[1].catalog_id.clone(), cats[2].catalog_id.clone()];
    let plan = plan_merge("  Everything  ", "", &cats, &selected);
    assert!(merge_refusal_text(&plan).is_none());
    let tags = owned_tags(&["all"]);
    let q = merged_request(plan, &tags).expect("a merge with a name and a selection goes ahead");
    assert_eq!(q.name, "Everything");
    assert_eq!(q.collection_type, "mixed");
    assert_eq!(q.collection_kind, CollectionKind::Smart);
    assert!(!q.promoted);
    assert_eq!(q.catalog_op, SetOp::In);
    assert_eq!(q.catalog_ids, vec![1u128, 3u128]);
    assert!(q.collection_source.is_none());
    assert_eq!(q.tags, Some(tags));
}

#[test]
fn merge_without_a_name_asks_for_one() {
    let cats = vec![plan_entry("a", "A", Some(1), None)];
    let selected = vec![cats[0].catalog_id.clone()];
    let plan = plan_merge("   ", "", &cats, &selected);
    assert!(matches!(plan, MergePlan::NeedsName));
    assert_eq!(merge_refusal_text(&plan), Some("Give the merged collection a name first."));
    assert!(merged_request(plan, &Vec::new()).is_none());
}

#[test]
fn merge_without_a_selection_does_nothing() {
    let cats = vec![plan_entry("a", "A", Some(1), None)];
    let plan = plan_merge("Name", "", &cats, &Vec::new());
    assert!(matches!(plan, MergePlan::NothingSelected));
    assert_eq!(merge_refusal_text(&plan), None);
    assert!(merged_request(plan, &Vec::new()).is_none());
}

#[test]
fn creation_failures_and_kind_keys() {
    assert_eq!(creation_failure("Top", "no item id returned"), "Top: no item id returned");
    assert_eq!(collection_kind_key(CollectionKind::Catalog), "catalog");
    assert_eq!(collection_kind_key(CollectionKind::Smart), "smart");
}

#[test]
fn api_key_requests_and_errors() {
    assert_eq!(api_key_request("  My Media App "), Some("My Media App".to_string()));
    assert_eq!(api_key_request(" \t "), None);
    assert_eq!(api_key_request(""), None);
    assert_eq!(api_key_error_text("forbidden"), "Failed to create key: forbidden");
}

fn run_save(is_edit: bool, typed: bool, policy: bool, fail_at: Option<usize>) -> Vec<UserSaveStep> {
    let mut seen = vec![];
    let mut step = first_save_step(is_edit);
    let mut n: usize = 0;
    while step != UserSaveStep::Done && step != UserSaveStep::Failed {
        seen.push(step);
        let ok = fail_at != Some(n);
        step = next_save_step(step, ok, is_edit, typed, policy);
        n += 1;
    }
    seen.push(step);
    seen
}

#[test]
fn user_edit_sets_the_password_only_when_typed() {
    assert_eq!(run_save(true, true, false, None), vec![UserSaveStep::UpdateUser, UserSaveStep::UpdatePolicy, UserSaveStep::SetPassword, UserSaveStep::Done]);
    assert_eq!(run_save(true, false, true, None), vec![UserSaveStep::UpdateUser, UserSaveStep::UpdatePolicy, UserSaveStep::Done]);
}

#[test]
fn user_creation_sets_the_policy_only_when_needed() {
    assert_eq!(run_save(false, true, true, None), vec![UserSaveStep::CreateUser, UserSaveStep::UpdatePolicy, UserSaveStep::Done]);
    assert_eq!(run_save(false, true, false, None), vec![UserSaveStep::CreateUser, UserSaveStep::Done]);
}

#[test]
fn user_save_stops_at_the_first_error() {
    assert_eq!(run_save(true, true, false, Some(1)), vec![UserSaveStep::UpdateUser, UserSaveStep::UpdatePolicy, UserSaveStep::Failed]);
    assert_eq!(run_save(false, true, true, Some(0)), vec![UserSaveStep::CreateUser, UserSaveStep::Failed]);
    assert_eq!(next_save_step(UserSaveStep::Failed, true, true, true, true), UserSaveStep::Failed);
}

#[test]
fn wizard_steps_forward_back_and_errors() {
    let w = WizardState { step: 0, error: Some("old".to_string()) };
    let w = wizard_after(w, WizardEvent::Saved);
    assert_eq!((w.step, w.error.clone()), (1, None));
    let w = wizard_after(w, WizardEvent::ServerError("name taken".to_string()));
    assert_eq!((w.step, w.error.as_deref()), (1, Some("name taken")));
    let w = wizard_after(w, WizardEvent::ClientError("bad url".to_string()));
    assert_eq!(w.error.as_deref(), Some("Client error: bad url"));
    let w = wizard_after(w, WizardEvent::PasswordMismatch);
    assert_eq!((w.step, w.error.as_deref()), (1, Some("Passwords do not match")));
    let w = wizard_after(w, WizardEvent::Saved);
    assert_eq!((w.step, w.error.clone()), (2, None));
    let w = wizard_after(w, WizardEvent::Saved);
    assert_eq!(w.step, 2);
    let w = wizard_after(WizardState { step: 1, error: Some("x".to_string()) }, WizardEvent::Back);
    assert_eq!((w.step, w.error), (0, None));
}

#[test]
fn wizard_account_check() {
    assert!(account_step_check(true, "pw", "pw").is_none());
    assert!(matches!(account_step_check(true, "pw", "pW"), Some(WizardEvent::PasswordMismatch)));
    assert!(matches!(account_step_check(false, "pw", "pw"), Some(WizardEvent::InvalidUsername)));
    assert!(matches!(account_step_check(false, "pw", "pW"), Some(WizardEvent::InvalidUsername)));
    let w = wizard_after(WizardState { step: 1, error: None }, WizardEvent::InvalidUsername);
    assert_eq!(w.step, 1);
    assert_eq!(
        w.error.as_deref(),
        Some("Invalid username: must contain only letters, digits, spaces, and -'._@+, and be at most 255 characters")
    );
}

fn filters_tuple(f: &ChannelFilters) -> (u32, String, String, String, String, String, String) {
    (
        f.page,
        f.search_input.clone(),
        f.search.clone(),
        f.status.clone(),
        f.country.clone(),
        f.group.clone(),
        f.sort.clone(),
    )
}

#[test]
fn channel_filter_changes_go_back_to_the_first_page() {
    let f = initial_channel_filters();
    assert_eq!(
        filters_tuple(&f),
        (0, "".into(), "".into(), "all".into(), "".into(), "".into(), "order".into())
    );
    let f = channel_filters_after(f, ChannelFilterEvent::Next);
    let f = channel_filters_after(f, ChannelFilterEvent::Next);
    assert_eq!(f.page, 2);
    let f = channel_filters_after(f, ChannelFilterEvent::Type("bbc".into()));
    assert_eq!((f.page, f.search_input.as_str(), f.search.as_str()), (2, "bbc", ""));
    let f = channel_filters_after(f, ChannelFilterEvent::Commit);
    assert_eq!((f.page, f.search.as_str()), (0, "bbc"));
    let f = channel_filters_after(f, ChannelFilterEvent::Next);
    let f = channel_filters_after(f, ChannelFilterEvent::SetCountry("GB".into()));
    assert_eq!((f.page, f.country.as_str()), (0, "GB"));
    let f = channel_filters_after(f, ChannelFilterEvent::Next);
    let f = channel_filters_after(f, ChannelFilterEvent::SetStatus("false".into()));
    assert_eq!((f.page, f.status.as_str()), (0, "false"));
    let f = channel_filters_after(f, ChannelFilterEvent::Next);
    let f = channel_filters_after(f, ChannelFilterEvent::SetGroup("News".into()));
    assert_eq!((f.page, f.group.as_str()), (0, "News"));
    let f = channel_filters_after(f, ChannelFilterEvent::Next);
    let f = channel_filters_after(f, ChannelFilterEvent::SetSort("name".into()));
    assert_eq!((f.page, f.sort.as_str()), (0, "name"));
    let f = channel_filters_after(f, ChannelFilterEvent::Next);
    let f = channel_filters_after(f, ChannelFilterEvent::Reset);
    assert_eq!(filters_tuple(&f), filters_tuple(&initial_channel_filters()));
}

#[test]
fn channel_previous_page_stops_at_the_first() {
    let f = initial_channel_filters();
    let f = channel_filters_after(f, ChannelFilterEvent::Prev);
    assert_eq!(f.page, 0);
    let f = channel_filters_after(f, ChannelFilterEvent::Next);
    let f = channel_filters_after(f, ChannelFilterEvent::Prev);
    assert_eq!(f.page, 0);
}

#[test]
fn devices_view_events_and_query() {
    let v = DevicesView { offset: 50, page_size: 25, search: String::new() };
    let q = device_query(&v);
    assert_eq!((q.start_index, q.limit, q.search_term), (50, 25, None));
    let v = devices_after(v, DevicesEvent::Search("ann".into()));
    assert_eq!((v.offset, v.page_size, v.search.as_str()), (0, 25, "ann"));
    let q = device_query(&v);
    assert_eq!(q.search_term.as_deref(), Some("ann"));
    let v = devices_after(v, DevicesEvent::Next);
    let v = devices_after(v, DevicesEvent::Next);
    assert_eq!(v.offset, 50);
    let v = devices_after(v, DevicesEvent::PageSize("100".into()));
    assert_eq!((v.offset, v.page_size), (0, 100));
    let v = devices_after(DevicesView { offset: 30, ..v }, DevicesEvent::PageSize("lots".into()));
    assert_eq!((v.offset, v.page_size), (30, 100));
    let v = devices_after(v, DevicesEvent::Prev);
    assert_eq!(v.offset, 0);
    let v = devices_after(DevicesView { offset: 250, ..v }, DevicesEvent::Prev);
    assert_eq!(v.offset, 150);
    let v = devices_after(v, DevicesEvent::ClearSearch);
    assert_eq!((v.offset, v.search.as_str()), (0, ""));
}

#[test]
fn revoke_all_needs_a_uuid() {
    let id = uuid::Uuid::from_u128(ADDON).to_string();
    assert_eq!(revoke_all_target(&id), Some(ADDON));
    assert_eq!(revoke_all_target(&id.to_uppercase()), Some(ADDON));
    assert_eq!(revoke_all_target("unknown"), None);
    assert_eq!(revoke_all_target(&format!("{{{}}}", id)), Some(ADDON));
    assert_eq!(revoke_all_target(&id.replace('-', "")), Some(ADDON));
    assert_eq!(revoke_all_target(""), None);
}

#[test]
fn devices_failures() {
    assert_eq!(devices_failure_text(DevicesFailure::Load, "503"), "Failed to load devices: 503");
    assert_eq!(devices_failure_text(DevicesFailure::Revoke, "x"), "Failed to revoke session: x");
    assert_eq!(devices_failure_text(DevicesFailure::RevokeAll, "y"), "Failed to revoke sessions: y");
}

#[test]
fn activity_queries_and_severity() {
    let q = activity_query(0);
    assert_eq!((q.start_index, q.limit), (0, 50));
    let q = activity_query(120);
    assert_eq!((q.start_index, q.limit), (120, 50));
    assert_eq!(severity_or_default(None), "Information");
    assert_eq!(severity_or_default(Some("Error")), "Error");
    assert_eq!(activity_failure_text(ActivityFailure::Load, "e"), "Failed to load activity log: e");
    assert_eq!(activity_failure_text(ActivityFailure::LoadMore, "e"), "Failed to load more: e");
}

#[test]
fn ungrouped_streams_setting() {
    assert!(shows_ungrouped(None));
    assert!(!shows_ungrouped(Some(false)));
    assert!(shows_ungrouped(Some(true)));
    assert_eq!(ungrouped_update(true, false), Some(false));
    assert_eq!(ungrouped_update(true, true), Some(true));
    assert_eq!(ungrouped_update(false, true), None);
}

#[test]
fn playback_payload_clears_vaapi_device_and_driver() {
    let f = PlaybackForm {
        encoding_preset: "veryfast".to_string(),
        hw_accel: HwAccel::Vaapi,
        auto_detect: false,
        tonemapping: true,
        vpp_tonemapping: false,
        tonemapping_algorithm: "bt2390".to_string(),
        allow_hevc: true,
        allow_av1: false,
        h264_crf: 20,
        h265_crf: 26,
    };
    let p = playback_payload(&f);
    assert_eq!(p.encoding_preset.as_deref(), Some("veryfast"));
    assert_eq!(p.hw_accel, Some(HwAccel::Vaapi));
    assert_eq!(p.auto_detect, Some(false));
    assert_eq!(p.tonemapping, Some(true));
    assert_eq!(p.vpp_tonemapping, Some(false));
    assert_eq!(p.tonemapping_algorithm.as_deref(), Some("bt2390"));
    assert_eq!(p.allow_hevc, Some(true));
    assert_eq!(p.allow_av1, Some(false));
    assert_eq!(p.h264_crf, Some(20));
    assert_eq!(p.h265_crf, Some(26));
    assert_eq!(p.vaapi_device, None);
    assert_eq!(p.vaapi_driver, None);
}

#[test]
fn lower_case_languages_are_stable() {
    assert!(lowercase_stable("en"));
    assert!(lowercase_stable("pt-br"));
    assert!(!lowercase_stable("EN"));
    assert!(!lowercase_stable("Fr"));
}

#[test]
fn unreadable_ratings_become_zero() {
    let rating = |field: &str, op: &str, value: &str| match raw_to_rule(field, op, value) {
        FilterRule::RatingAudience { op, value } | FilterRule::RatingCritic { op, value } => (op, value),
        other => panic!("not a rating rule: {:?}", other),
    };
    assert_eq!(rating("rating_audience", "??", ""), (NumericOp::Eq, "0".to_string()));
    assert_eq!(rating("rating_critic", "gt", "abc"), (NumericOp::Gt, "0".to_string()));
    assert_eq!(rating("rating_audience", "lt", " 7.5"), (NumericOp::Lt, "0".to_string()));
    assert_eq!(rating("rating_audience", "eq", "7.5"), (NumericOp::Eq, "7.5".to_string()));
    assert_eq!(rating("rating_critic", "eq", "8"), (NumericOp::Eq, "8".to_string()));
    match raw_to_rule("year", "gt", "20x0") {
        FilterRule::Year { op, value } => assert_eq!((op, value), (NumericOp::Gt, 0)),
        other => panic!("not a year rule: {:?}", other),
    }
    match raw_to_rule("has_trailer", "", "True") {
        FilterRule::HasTrailer { value } => assert!(!value),
        other => panic!("not a trailer rule: {:?}", other),
    }
}

#[test]
fn decimal_number_grammar_agrees_with_std() {
    for t in [
        "0", "7.5", "7.50", "-3", "+2.", ".5", "5.", "1e3", "1E-3", "2.5e+10", "inf", "-Infinity",
        "NaN", "+nan", "INF", "007", "", ".", "e5", "1e", "1e+", " 7", "7 ", "1.2.3", "abc", "--1",
        "1_000", "0x10", "infinit", "1,5", "\u{661}",
    ] {
        assert_eq!(is_decimal_number(t), t.parse::<f64>().is_ok(), "text {:?}", t);
    }
}
