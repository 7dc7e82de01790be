use remux_dashboard::addons::{
    add_list_entry, can_create_addon, catalog_update, description_tokens, display_types,
    flag_option, number_option, option_flag, option_text, remove_list_entry, save_outcome,
    set_list_entry, settings_row, shows_catalog_section, CatalogSettings, DescriptionToken,
    OptionValue,
};
use remux_dashboard::appearance::{accent_selected, scale_input};
use remux_dashboard::calendar::{is_copied, linkable_users, picked_user};
use remux_dashboard::devices::{group_by_user, DeviceInfo};
use remux_dashboard::iptv::{
    bulk_search, channel_query, channel_sort_order, custom_name, edit_source_form,
    empty_channels_message, enabled_filter, filters_active, number_text, source_form_error_text,
    source_row, tuner_host_request, SourceForm, SourceFormError, TunerSource,
};
use remux_dashboard::locale::{country_code_from_language, fmt_time, time_or_dash};
use remux_dashboard::text::is_blank;
use remux_dashboard::paging::{
    activity_has_more, channel_page_count, channel_page_label, channel_pager, offset_pager,
    range_label,
};
use remux_dashboard::reorder::{reorder_updates, MoveDirection};
use remux_dashboard::routes::{
    group_expanded, group_storage_key, parse_route, route_group, route_path, route_title,
    NavGroup, Route,
};
use remux_dashboard::session::{
    app_screen, login_error_text, login_outcome, login_server_url, log_origin, passwords_match,
    prefill, same_server, session_labels, StoredServer, wizard_marker, wizard_needed, wizard_title, LoginError,
    LoginOutcome, LoginReply, Screen,
};
use remux_dashboard::settings::{
    apply_server_settings, can_import_users, crf_input, hw_accel_key, number_field,
    optional_text, p2p_form, parse_hw_accel, playback_form, probe_form, remote_search_form,
    remote_search_save, server_settings_form, shows_tonemap_algorithm, subtitle_languages,
    HwAccel, PlaybackSettings, RemoteSearch, ServerSettings,
};
use remux_dashboard::streams::{
    add_rule, change_field, change_op, field_key, match_connector, parse_field, priority_note,
    remove_rule, rule_summary, toggle_value, StreamField, StreamRule,
};
use remux_dashboard::filters::{FilterMatchMode, SetOp};
use remux_dashboard::suggestions::{
    catalog_suggestion, catalog_value, country_suggestions, local_kind, named_suggestions,
    suggestion_source, Country, SuggestionSource,
};
use remux_dashboard::url::{absolute_url, detect_image_content_type, image_data_url, primary_image_url};
use remux_dashboard::users::{
    can_create_api_key, same_user_form_mode, UserFormMode, check_passwords, initial_policy_fields, is_self, max_sessions_input, max_sessions_text,
    needs_policy_update, password_error_text, shows_confirm, PasswordError,
};

fn strings(v: &[&str]) -> Vec<String> {
    v.iter().map(|s| s.to_string()).collect()
}

const UID: u128 = 0x550e8400_e29b_41d4_a716_446655440000;
const UID_TEXT: &str = "550e8400-e29b-41d4-a716-446655440000";

#[test]
fn country_code_from_browser_language() {
    assert_eq!(country_code_from_language(Some("en-gb")), "GB");
    assert_eq!(country_code_from_language(Some("zh-Hant-TW")), "TW");
    assert_eq!(country_code_from_language(Some("pt_BR")), "BR");
    assert_eq!(country_code_from_language(Some("de")), "US");
    assert_eq!(country_code_from_language(Some("sr-Latn")), "US");
    assert_eq!(country_code_from_language(Some("es-419")), "US");
    assert_eq!(country_code_from_language(Some("gb")), "US");
    assert_eq!(country_code_from_language(None), "US");
}

#[test]
fn clock_part_of_a_rendered_time() {
    assert_eq!(fmt_time("2026-02-26 18:30:38 UTC"), "18:30");
    assert_eq!(fmt_time("2026-02-26 18:3"), "18:3");
    assert_eq!(fmt_time("short"), "");
    assert_eq!(time_or_dash(Some("2026-02-26 09:05")), "09:05");
    assert_eq!(time_or_dash(None), "\u{2014}");
    assert!(is_blank(" \t\n"));
    assert!(!is_blank(" x "));
}

#[test]
fn login_url_and_outcomes() {
    assert_eq!(login_server_url(Some("http://a"), "  http://b "), Ok("http://a".to_string()));
    assert_eq!(login_server_url(Some(""), "  http://b "), Ok("http://b".to_string()));
    assert_eq!(login_server_url(None, "   "), Err(LoginError::MissingServerUrl));
    assert_eq!(login_error_text(LoginError::MissingServerUrl), "Please enter the server URL");
    let reply = LoginReply::Authenticated {
        server_id: "srv".to_string(),
        access_token: Some("tok".to_string()),
        user_id: Some("u1".to_string()),
    };
    match login_outcome("http://h", reply) {
        LoginOutcome::Store(s) => {
            assert_eq!(s.id, "srv");
            assert_eq!(s.name, "Remux");
            assert_eq!(s.manual_address, "http://h");
            assert_eq!(s.access_token, "tok");
            assert_eq!(s.user_id, "u1");
        }
        LoginOutcome::Error(e) => panic!("unexpected {e}"),
    }
    let no_token = LoginReply::Authenticated { server_id: "s".into(), access_token: None, user_id: Some("u".into()) };
    assert!(matches!(login_outcome("x", no_token), LoginOutcome::Error(m) if m == "Login failed: no token in response"));
    assert!(matches!(login_outcome("x", LoginReply::Unauthorized), LoginOutcome::Error(m) if m == "Invalid username or password"));
    assert!(matches!(login_outcome("x", LoginReply::Failed("down".into())), LoginOutcome::Error(m) if m == "Login failed: down"));
}

#[test]
fn screens_and_wizard() {
    assert_eq!(app_screen(None, true), Screen::Starting);
    assert_eq!(app_screen(Some(true), true), Screen::Wizard);
    assert_eq!(app_screen(Some(false), false), Screen::Login);
    assert_eq!(app_screen(Some(false), true), Screen::Dashboard);
    assert!(wizard_needed(Some(false)));
    assert!(!wizard_needed(Some(true)));
    assert!(!wizard_needed(None));
    assert_eq!(wizard_title(0), "Server Configuration");
    assert_eq!(wizard_title(1), "Create Admin Account");
    assert_eq!(wizard_title(7), "Setup Complete");
    assert_eq!(wizard_marker(0, 1), (false, true));
    assert_eq!(wizard_marker(2, 2), (true, false));
    assert_eq!(wizard_marker(2, 5), (false, false));
    assert_eq!(prefill(Some(""), "US"), "US");
    assert_eq!(prefill(Some("FR"), "US"), "FR");
    assert_eq!(prefill(None, "GB"), "GB");
    assert!(passwords_match("a", "a"));
    assert!(!passwords_match("a", "b"));
    assert_eq!(log_origin("", "http://stored"), "http://stored");
    let a = StoredServer { id: "s".into(), name: "A".into(), manual_address: "x".into(), access_token: "t".into(), user_id: "u".into() };
    let b = StoredServer { id: "s".into(), name: "B".into(), manual_address: "y".into(), access_token: "v".into(), user_id: "w".into() };
    assert!(same_server(&a, &b));
    assert_eq!(log_origin("http://page", "http://stored"), "http://page");
}

#[test]
fn session_row_labels() {
    let l = session_labels(None, Some(None), None, Some("Web"), Some("1.2"));
    assert_eq!(l.device, "Unknown device");
    assert_eq!(l.playing.as_deref(), Some("\u{25b6} Unknown"));
    assert_eq!(l.user, "Unknown");
    assert_eq!(l.client.as_deref(), Some("Web 1.2"));
    let l = session_labels(Some("TV"), None, Some("ann"), None, Some("9"));
    assert_eq!(l.device, "TV");
    assert_eq!(l.playing, None);
    assert_eq!(l.client, None);
}

#[test]
fn user_form_checks() {
    assert_eq!(check_passwords(false, "", ""), Err(PasswordError::Required));
    assert_eq!(check_passwords(true, "", "x"), Ok(()));
    assert_eq!(check_passwords(true, "a", "b"), Err(PasswordError::Mismatch));
    assert_eq!(check_passwords(false, "a", "a"), Ok(()));
    assert_eq!(password_error_text(PasswordError::Mismatch), "Passwords do not match");
    assert_eq!(password_error_text(PasswordError::Required), "Password is required");
    assert!(shows_confirm(false, ""));
    assert!(!shows_confirm(true, ""));
    assert!(!needs_policy_update(false, false, false, true, 0));
    assert!(needs_policy_update(false, false, false, false, 0));
    assert!(needs_policy_update(false, false, false, true, 2));
    assert_eq!(max_sessions_input("0"), 1);
    assert_eq!(max_sessions_input("5"), 5);
    assert_eq!(max_sessions_input(""), 0);
    assert_eq!(max_sessions_text(0), "");
    assert_eq!(max_sessions_text(3), "3");
    assert_eq!(max_sessions_input(&max_sessions_text(7)), 7);
    assert_eq!(initial_policy_fields(None), (true, 0));
    assert!(is_self(UID, UID_TEXT));
    assert!(can_create_api_key(false, " app "));
    assert!(!can_create_api_key(false, "  "));
    assert!(!can_create_api_key(true, "app"));
    assert!(same_user_form_mode(UserFormMode::Create, UserFormMode::Create));
    assert!(!same_user_form_mode(UserFormMode::Edit(1), UserFormMode::Edit(2)));
    assert!(!is_self(UID, "nope"));
}

#[test]
fn server_settings_round_trip() {
    let stored = ServerSettings {
        server_name: None,
        metadata_country: None,
        catalog_max_items: None,
        filter_by_digital_release: true,
        digital_release_buffer_days: 3,
        subtitle_languages: Some(strings(&["en", "fr"])),
        quick_connect: None,
    };
    let f = server_settings_form(&stored);
    assert_eq!(f.server_name, "");
    assert_eq!(f.metadata_country, "US");
    assert_eq!(f.catalog_max_items, 100);
    assert_eq!(f.subtitle_languages, "en, fr");
    assert!(f.quick_connect);
    let saved = apply_server_settings(&f);
    assert_eq!(saved.subtitle_languages, Some(strings(&["en", "fr"])));
    assert_eq!(saved.metadata_country.as_deref(), Some("US"));
    assert_eq!(saved.catalog_max_items, Some(100));
    assert_eq!(subtitle_languages(" EN , ,Fr,ÉS "), strings(&["en", "fr", "és"]));
    assert_eq!(number_field("12"), Some(12));
    assert_eq!(number_field("x"), None);
}

#[test]
fn playback_and_other_settings() {
    let f = playback_form(&PlaybackSettings {
        encoding_preset: None,
        hw_accel: None,
        auto_detect: None,
        tonemapping: None,
        vpp_tonemapping: None,
        tonemapping_algorithm: None,
        allow_hevc: None,
        allow_av1: None,
        h264_crf: None,
        h265_crf: Some(30),
        vaapi_device: None,
        vaapi_driver: None,
    });
    assert_eq!(f.encoding_preset, "fast");
    assert_eq!(f.hw_accel, HwAccel::Software);
    assert!(f.auto_detect);
    assert_eq!(f.tonemapping_algorithm, "hable");
    assert!(f.allow_hevc);
    assert!(!f.allow_av1);
    assert_eq!((f.h264_crf, f.h265_crf), (23, 30));
    for a in [HwAccel::Software, HwAccel::Vaapi, HwAccel::Nvenc, HwAccel::Qsv, HwAccel::Amf, HwAccel::VideoToolbox, HwAccel::V4l2m2m, HwAccel::Rkmpp] {
        assert_eq!(parse_hw_accel(hw_accel_key(a)), a);
    }
    assert_eq!(parse_hw_accel("quantum"), HwAccel::Software);
    assert_eq!(crf_input("60"), Some(51));
    assert_eq!(crf_input("18"), Some(18));
    assert_eq!(crf_input("-1"), None);
    assert!(shows_tonemap_algorithm(true, false));
    assert!(!shows_tonemap_algorithm(true, true));
    assert_eq!(probe_form(None, Some(90), None, None), (20, 90, true, 3));
    assert_eq!(p2p_form(None, None, Some(5)), (true, 0, 5));
    assert_eq!(optional_text(""), None);
    assert_eq!(optional_text("x"), Some("x".to_string()));
    assert!(can_import_users("u", "k", false));
    assert!(!can_import_users("u", "", false));
}

#[test]
fn remote_search_toggles() {
    let all = remote_search_form(None);
    assert!(all.movies && all.series && all.tracks && all.albums && all.artists);
    let some = strings(&["series", "person"]);
    let r = remote_search_form(Some(&some));
    assert_eq!(r, RemoteSearch { movies: false, series: true, tracks: false, albums: false, artists: false });
    let saved = remote_search_save(r);
    assert_eq!(saved, strings(&["person", "series"]));
    assert_eq!(remote_search_form(Some(&saved)), r);
}

#[test]
fn channel_sources() {
    let src = TunerSource {
        id: Some("1".into()),
        friendly_name: None,
        url: Some("http://x/get.php".into()),
        kind: Some("xtream".into()),
        username: Some("bob".into()),
    };
    let row = source_row(&src);
    assert_eq!(row.name, "Unnamed");
    assert_eq!(row.kind_label, "Xtream");
    assert!(row.epg_badge);
    assert_eq!(row.detail, "user: bob");
    let m3u = TunerSource { id: None, friendly_name: Some("Mine".into()), url: Some("http://p.m3u".into()), kind: None, username: None };
    let row = source_row(&m3u);
    assert_eq!(row.kind_label, "M3U");
    assert!(!row.epg_badge);
    assert_eq!(row.detail, "http://p.m3u");
    let f = edit_source_form(&m3u);
    assert_eq!(f.kind, "m3u");
    assert_eq!(f.password, "");
    let form = SourceForm { kind: "xtream".into(), name: "".into(), url: "http://x".into(), username: "".into(), password: "".into() };
    assert!(matches!(tuner_host_request(None, &form), Err(SourceFormError::MissingXtreamUser)));
    let form = SourceForm { kind: "m3u".into(), name: "".into(), url: "".into(), username: "".into(), password: "".into() };
    assert!(matches!(tuner_host_request(None, &form), Err(SourceFormError::MissingUrl)));
    assert_eq!(source_form_error_text(SourceFormError::MissingUrl), "URL is required");
    let form = SourceForm { kind: "xtream".into(), name: "".into(), url: "http://x".into(), username: "u".into(), password: "".into() };
    let req = tuner_host_request(Some("7".into()), &form).ok().unwrap();
    assert_eq!(req.friendly_name, "IPTV");
    assert_eq!(req.username.as_deref(), Some("u"));
    assert_eq!(req.password, None);
    assert_eq!(req.id.as_deref(), Some("7"));
    let form = SourceForm { kind: "m3u".into(), name: "N".into(), url: "http://x".into(), username: "u".into(), password: "p".into() };
    let req = tuner_host_request(None, &form).ok().unwrap();
    assert_eq!(req.username, None);
    assert_eq!(req.password, None);
    assert_eq!(req.friendly_name, "N");
}

#[test]
fn channel_editor() {
    assert_eq!(enabled_filter("true"), Some(true));
    assert_eq!(enabled_filter("false"), Some(false));
    assert_eq!(enabled_filter("all"), None);
    let q = channel_query(2, "news", "false", "US", "", "name");
    assert_eq!((q.limit, q.offset), (50, 100));
    assert_eq!(q.enabled, Some(false));
    assert_eq!(q.search, "news");
    assert!(!filters_active("all", "", "", "order", ""));
    assert!(filters_active("all", "", "Sports", "order", ""));
    assert!(filters_active("all", "", "", "name", ""));
    assert_eq!(empty_channels_message(0, "", "all", "", ""), "No channels yet. Run a refresh after adding channel sources.");
    assert_eq!(empty_channels_message(0, "x", "all", "", ""), "No channels match your filters.");
    assert_eq!(bulk_search(""), None);
    assert_eq!(custom_name("BBC"), Some("BBC".to_string()));
    assert_eq!(channel_sort_order("12"), Some(12));
    assert_eq!(channel_sort_order(""), None);
    assert_eq!(number_text(Some(4), "–"), "4");
    assert_eq!(number_text(None, "–"), "–");
    assert_eq!(channel_page_count(0), 0);
    assert_eq!(channel_page_count(101), 3);
    let p = channel_pager(0, 3);
    assert!(p.visible && !p.prev_enabled && p.next_enabled);
    assert_eq!(channel_page_label(1, 3), "Page 2 of 3");
}

#[test]
fn pagers() {
    let p = offset_pager(60, 25, 25);
    assert!(p.has_prev && p.has_next);
    assert_eq!((p.prev_offset, p.next_offset), (0, 50));
    let p = offset_pager(60, 50, 25);
    assert!(!p.has_next);
    assert_eq!(range_label(60, 50, 25), "51\u{2013}60 of 60");
    assert!(activity_has_more(50, 51));
    assert!(!activity_has_more(51, 51));
}

#[test]
fn reorder_moves_one_place() {
    let keys = vec![Some(0), Some(10), Some(20)];
    assert_eq!(reorder_updates(&keys, 1, MoveDirection::Up), Some(vec![(1, 0), (0, 10)]));
    assert_eq!(reorder_updates(&keys, 0, MoveDirection::Up), None);
    assert_eq!(reorder_updates(&keys, 2, MoveDirection::Down), None);
    let keys = vec![None, Some(10), Some(7)];
    assert_eq!(reorder_updates(&keys, 0, MoveDirection::Down), Some(vec![(1, 0), (0, 10), (2, 20)]));
}

#[test]
fn stream_rule_editing() {
    let mut rules: Vec<StreamRule> = Vec::new();
    add_rule(&mut rules);
    assert_eq!(rules.len(), 1);
    assert_eq!(rules[0].field, StreamField::Resolution);
    toggle_value(&mut rules, 0, StreamField::Resolution, 2, true);
    toggle_value(&mut rules, 0, StreamField::Codec, 5, true);
    assert_eq!(rules[0].values, vec![2]);
    change_op(&mut rules, 0, "not_in");
    assert_eq!(rules[0].op, SetOp::NotIn);
    assert_eq!(rules[0].values, vec![2]);
    change_field(&mut rules, 0, "codec");
    assert_eq!(rules[0].field, StreamField::Codec);
    assert_eq!(rules[0].op, SetOp::In);
    assert!(rules[0].values.is_empty());
    remove_rule(&mut rules, 3);
    assert_eq!(rules.len(), 1);
    remove_rule(&mut rules, 0);
    assert!(rules.is_empty());
    assert_eq!(parse_field(field_key(StreamField::Quality)), StreamField::Quality);
    assert_eq!(parse_field("weird"), StreamField::Resolution);
    assert_eq!(rule_summary(SetOp::NotIn, &strings(&["4K", "1080p"])), "NOT 4K/1080p");
    assert_eq!(rule_summary(SetOp::In, &strings(&["HEVC"])), "HEVC");
    assert_eq!(match_connector(FilterMatchMode::Any, 2), Some("OR"));
    assert_eq!(match_connector(FilterMatchMode::All, 1), None);
    assert_eq!(priority_note(-3), "priority -3");
}

#[test]
fn routes_and_sidebar() {
    for r in [Route::Dashboard, Route::Addons, Route::Library, Route::Iptv, Route::StreamingGroups, Route::StreamingProbing, Route::StreamingP2p, Route::SettingsGeneral, Route::SettingsPlayback, Route::SettingsSearch, Route::SettingsJellyfinSync, Route::SettingsBranding, Route::AccessUsers, Route::AccessApiKeys, Route::Tasks, Route::Activity] {
        assert_eq!(parse_route(route_path(r)), r);
    }
    assert_eq!(parse_route("/nope"), Route::NotFound);
    assert_eq!(route_title(Route::StreamingGroups), "Stream Groups");
    assert_eq!(route_title(Route::Dashboard), "Remux");
    assert_eq!(route_group(Route::SettingsBranding), Some(NavGroup::Settings));
    assert_eq!(route_group(Route::Tasks), None);
    assert!(group_expanded(NavGroup::Access, false, Route::AccessUsers));
    assert!(!group_expanded(NavGroup::Access, false, Route::Library));
    assert!(group_expanded(NavGroup::Access, true, Route::Library));
    assert_eq!(group_storage_key(NavGroup::Content), "sidebar_group_Content");
}

#[test]
fn suggestions() {
    assert_eq!(suggestion_source("studio"), SuggestionSource::Studios);
    assert_eq!(suggestion_source("year"), SuggestionSource::Nothing);
    assert_eq!(local_kind(SuggestionSource::People), Some("Person"));
    assert_eq!(local_kind(SuggestionSource::Tags), None);
    let named = named_suggestions(&vec![Some("A".to_string()), None, Some("B".to_string())]);
    let pairs: Vec<(String, String)> = named.into_iter().map(|s| (s.label, s.value)).collect();
    assert_eq!(pairs, vec![("A".to_string(), "A".to_string()), ("B".to_string(), "B".to_string())]);
    let s = catalog_suggestion("Cinemeta", "Top Movies", "addon:abc:top", "TOP").unwrap();
    assert_eq!(s.label, "Cinemeta: Top Movies");
    assert_eq!(s.value, "abc:top");
    assert!(catalog_suggestion("Cinemeta", "Top Movies", "addon:abc:top", "shows").is_none());
    assert_eq!(catalog_value("plain"), "plain");
    let countries: Vec<Country> = (0..40)
        .map(|i| Country { name: format!("Land{i}"), code: format!("L{i}") })
        .collect();
    assert_eq!(country_suggestions(&countries, "land").len(), 25);
    let fr = vec![
        Country { name: "France".into(), code: "FR".into() },
        Country { name: "Germany".into(), code: "DE".into() },
    ];
    let got = country_suggestions(&fr, "fr");
    assert_eq!(got.len(), 1);
    assert_eq!(got[0].label, "France (FR)");
    assert_eq!(got[0].value, "FR");
    assert_eq!(country_suggestions(&fr, "de")[0].value, "DE");
}

#[test]
fn calendar_and_appearance() {
    assert_eq!(linkable_users(&vec![1, 2, 3], &vec![2]), vec![0, 2]);
    assert_eq!(picked_user(UID_TEXT), Some(UID));
    assert_eq!(picked_user(""), None);
    assert!(is_copied(Some(4), 4));
    assert!(!is_copied(None, 4));
    assert!(accent_selected("#AABBCC", "#aabbcc"));
    assert!(!accent_selected("#AABBCC", "#aabbcd"));
    assert_eq!(scale_input("110"), Some(110));
    assert_eq!(scale_input("300"), None);
}

#[test]
fn devices_grouped_by_user() {
    let dev = |uid: Option<u128>, name: Option<&str>| DeviceInfo {
        id: None,
        name: None,
        user_id: uid,
        last_user_name: name.map(|n| n.to_string()),
        app_name: None,
        app_version: None,
        is_current_session: None,
        remote_end_point: None,
    };
    let devices = vec![dev(Some(UID), Some("ann")), dev(None, None), dev(Some(UID), Some("later"))];
    let sections = group_by_user(&devices);
    assert_eq!(sections.len(), 2);
    assert_eq!(sections[0].uid, UID_TEXT);
    assert_eq!(sections[0].label, "ann");
    assert_eq!(sections[0].devices, vec![0, 2]);
    assert_eq!(sections[1].uid, "");
    assert_eq!(sections[1].devices, vec![1]);
}

#[test]
fn addon_edit_form() {
    assert_eq!(display_types(&vec![], &strings(&["movie", "series"])), strings(&["movie", "series"]));
    assert_eq!(display_types(&strings(&["movie"]), &strings(&["movie", "series"])), strings(&["movie"]));
    assert!(shows_catalog_section(&strings(&["stream", "catalog"])));
    assert!(!shows_catalog_section(&strings(&["stream"])));
    let c = CatalogSettings {
        catalog_id: "addon:x:top".into(),
        enabled: true,
        max_items: Some(40),
        tags: strings(&["kids", "fun"]),
        create_collection: false,
    };
    let row = settings_row(&c);
    assert_eq!(row.max_items_text, "40");
    assert_eq!(row.tags_text, "kids, fun");
    let back = catalog_update(&row);
    assert_eq!(back.max_items, Some(40));
    assert_eq!(back.tags, strings(&["kids", "fun"]));
    let mut row2 = row;
    row2.max_items_text = " -3 ".into();
    row2.tags_text = " a, ,b ".into();
    let up = catalog_update(&row2);
    assert_eq!(up.max_items, None);
    assert_eq!(up.tags, strings(&["a", "b"]));
    let none = CatalogSettings { catalog_id: "c".into(), enabled: false, max_items: None, tags: vec![], create_collection: true };
    assert_eq!(settings_row(&none).max_items_text, "");
    assert!(can_create_addon(false, " n ", true));
    assert!(!can_create_addon(false, "   ", true));
    assert!(!can_create_addon(true, "n", true));
}

#[test]
fn addon_option_fields() {
    assert_eq!(option_text(Some(&OptionValue::Text("abc".into()))), "abc");
    assert_eq!(option_text(Some(&OptionValue::Integer(-4))), "-4");
    assert_eq!(option_text(Some(&OptionValue::Flag(true))), "true");
    assert_eq!(option_text(Some(&OptionValue::Null)), "null");
    assert_eq!(option_text(Some(&OptionValue::Json("[1]".into()))), "[1]");
    assert_eq!(option_text(None), "");
    assert!(option_flag(Some(&OptionValue::Flag(true))));
    assert!(!option_flag(Some(&OptionValue::Text("true".into()))));
    assert!(matches!(number_option("12"), Some(OptionValue::Integer(12))));
    assert!(number_option("1.5").is_none());
    assert!(matches!(flag_option("true"), OptionValue::Flag(true)));
    assert!(matches!(flag_option("on"), OptionValue::Flag(false)));
    let mut list = strings(&["a", "b"]);
    set_list_entry(&mut list, 1, "z".into());
    set_list_entry(&mut list, 5, "q".into());
    assert_eq!(list, strings(&["a", "z"]));
    remove_list_entry(&mut list, 0);
    remove_list_entry(&mut list, 9);
    assert_eq!(list, strings(&["z"]));
    add_list_entry(&mut list);
    assert_eq!(list, strings(&["z", ""]));
}

#[test]
fn addon_descriptions_and_saves() {
    let toks = description_tokens("  See https://x.io/a and\thttp://y now ");
    let view: Vec<(bool, String)> = toks
        .into_iter()
        .map(|t| match t {
            DescriptionToken::Link(s) => (true, s),
            DescriptionToken::Text(s) => (false, s),
        })
        .collect();
    assert_eq!(
        view,
        vec![
            (false, "See".to_string()),
            (true, "https://x.io/a".to_string()),
            (false, "and".to_string()),
            (true, "http://y".to_string()),
            (false, "now".to_string()),
        ]
    );
    assert!(description_tokens("   ").is_empty());
    let o = save_outcome(Some("boom"), None);
    assert!(!o.close);
    assert_eq!(o.error.as_deref(), Some("Failed to update addon: boom"));
    let o = save_outcome(None, Some("bad"));
    assert!(o.close);
    assert_eq!(o.error.as_deref(), Some("Addon saved but catalog update failed: bad"));
    let o = save_outcome(None, None);
    assert!(o.close && o.error.is_none());
}

#[test]
fn image_urls() {
    assert_eq!(detect_image_content_type(&[0x89, b'P', b'N', b'G', 0]), "image/png");
    assert_eq!(detect_image_content_type(b"GIF89a"), "image/gif");
    assert_eq!(detect_image_content_type(b"RIFF1234WEBPxx"), "image/webp");
    assert_eq!(detect_image_content_type(&[1, 2]), "image/jpeg");
    assert_eq!(image_data_url(b"GIF"), "data:image/gif;base64,R0lG");
    assert_eq!(image_data_url(&[0xff, 0xd8, 0xff, 0xe0]), "data:image/jpeg;base64,/9j/4A==");
    assert_eq!(primary_image_url("http://s", "id1", "t9"), "http://s/Items/id1/Images/Primary?tag=t9");
    assert_eq!(absolute_url(Some("https://o"), "/feed.ics"), "https://o/feed.ics");
    assert_eq!(absolute_url(None, "/feed.ics"), "/feed.ics");
}
