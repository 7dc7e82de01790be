use remux_dashboard::activity::severity_color;
use remux_dashboard::size::humanize_size;
use remux_dashboard::url::log_url;

#[test]
fn severity_color_maps_levels() {
    assert_eq!(severity_color("Error"), "var(--error)");
    assert_eq!(severity_color("Critical"), "var(--error)");
    assert_eq!(severity_color("Warning"), "var(--warning, #f59e0b)");
    assert_eq!(severity_color("Information"), "var(--text-muted)");
    assert_eq!(severity_color("anything-else"), "var(--text-muted)");
}

#[test]
fn humanize_size_scales_units() {
    assert_eq!(humanize_size(0), "0 B");
    assert_eq!(humanize_size(512), "512 B");
    assert_eq!(humanize_size(1024), "1.0 KB");
    assert_eq!(humanize_size(1536), "1.5 KB");
    assert_eq!(humanize_size(1024 * 1024), "1.0 MB");
    assert_eq!(humanize_size(3 * 1024 * 1024 * 1024), "3.0 GB");
    assert_eq!(humanize_size(-1), "—");
}

#[test]
fn log_url_encodes_name_and_token() {
    let url = log_url("https://example.test", "tok en", "remux.log");
    assert!(url.ends_with("/system/logs/log?name=remux.log&api_key=tok%20en"));
    let url2 = log_url("https://example.test/", "t", "a b.log");
    assert!(url2.contains("name=a%20b.log"));
}

/// The size text agrees with floating-point formatting of the scaled value,
/// ties and large counts included.
fn float_humanize(bytes: i64) -> String {
    if bytes < 0 {
        return "—".to_string();
    }
    let units = ["B", "KB", "MB", "GB", "TB"];
    let mut size = bytes as f64;
    let mut unit = 0;
    while size >= 1024.0 && unit < units.len() - 1 {
        size /= 1024.0;
        unit += 1;
    }
    if unit == 0 {
        format!("{bytes} B")
    } else {
        format!("{size:.1} {}", units[unit])
    }
}

#[test]
fn humanize_size_matches_float_formatting() {
    let mut samples: Vec<i64> = vec![
        1023, 1024, 1075, 1076, 1126, 1127, 1280, 1331, 1332, 1433, 1434, 1946, 2047, 2048,
        1_048_575, 1_048_576, 1_572_864, 1_153_433, 1_153_434, 10_485_759,
        1_099_511_627_775, 1_099_511_627_776, 5_000_000_000_000, 9_007_199_254_740_991,
        9_007_199_254_740_993, 9_007_199_254_740_995, 18_014_398_509_481_987,
        i64::MAX, i64::MAX - 1, 4_611_686_018_427_387_903, 1 << 62, (1 << 62) + 1,
    ];
    let mut x: i64 = 7;
    for _ in 0..2000 {
        x = x.wrapping_mul(6364136223846793005).wrapping_add(1442695040888963407);
        samples.push((x & i64::MAX) >> (x as u64 % 60));
    }
    for b in samples {
        assert_eq!(humanize_size(b), float_humanize(b), "bytes = {b}");
    }
}
