use remux_dashboard::task_list::{empty_tasks_message, group_tasks, task_badge, TaskSummary};
use remux_dashboard::tasks::{
    interval_in_range, kind_to_str, new_trigger, parse_kind, trigger_label, TaskTrigger,
    TriggerKind,
};

fn task(name: &str, cat: Option<&str>, state: Option<&str>) -> TaskSummary {
    TaskSummary {
        name: name.to_string(),
        category: cat.map(|c| c.to_string()),
        state: state.map(|s| s.to_string()),
        last_status: None,
    }
}

#[test]
fn tasks_group_by_category_then_name() {
    let tasks = vec![
        task("Scan", Some("Library"), None),
        task("Clean", Some("Maintenance"), Some("Running")),
        task("Alpha", Some("Library"), None),
        task("Orphan", None, None),
        task("Alpha", Some("Library"), Some("Running")),
    ];
    let groups = group_tasks(&tasks, false);
    let cats: Vec<&str> = groups.iter().map(|g| g.category.as_str()).collect();
    assert_eq!(cats, vec!["Library", "Maintenance", "Other"]);
    assert_eq!(groups[0].tasks, vec![2, 4, 0]);
    assert_eq!(groups[1].tasks, vec![1]);
    assert_eq!(groups[2].tasks, vec![3]);
}

#[test]
fn running_only_lists_running_tasks() {
    let tasks = vec![
        task("B", Some("X"), Some("Running")),
        task("A", Some("X"), Some("Idle")),
        task("C", Some("W"), Some("Running")),
    ];
    let groups = group_tasks(&tasks, true);
    assert_eq!(groups.len(), 2);
    assert_eq!(groups[0].category, "W");
    assert_eq!(groups[0].tasks, vec![2]);
    assert_eq!(groups[1].tasks, vec![0]);
    assert!(group_tasks(&Vec::new(), false).is_empty());
}

#[test]
fn categories_compare_by_code_point() {
    let tasks = vec![task("t", Some("b"), None), task("t", Some("B"), None), task("t", Some("É"), None)];
    let groups = group_tasks(&tasks, false);
    let cats: Vec<&str> = groups.iter().map(|g| g.category.as_str()).collect();
    assert_eq!(cats, vec!["B", "b", "É"]);
}

#[test]
fn task_badges() {
    let b = task_badge(Some("Running"), Some("Failed"));
    assert!(b.running);
    assert_eq!(b.text, "Running");
    assert_eq!(b.class, "task-badge task-badge-running");
    let b = task_badge(None, Some("Completed"));
    assert!(!b.running);
    assert_eq!(b.text, "Completed");
    assert_eq!(b.class, "task-badge task-badge-completed");
    let b = task_badge(Some("Idle"), Some("Failed"));
    assert_eq!(b.class, "task-badge task-badge-failed");
    let b = task_badge(Some("Idle"), None);
    assert_eq!(b.text, "");
    assert_eq!(b.class, "task-badge task-badge-idle");
    assert_eq!(empty_tasks_message(true), "No tasks currently running");
    assert_eq!(empty_tasks_message(false), "No tasks found");
}

fn trig(kind: &str, tod: Option<i64>, iv: Option<i64>, day: Option<&str>) -> TaskTrigger {
    TaskTrigger {
        trigger_type: Some(kind.to_string()),
        time_of_day_ticks: tod,
        interval_ticks: iv,
        day_of_week: day.map(|d| d.to_string()),
    }
}

#[test]
fn trigger_labels() {
    assert_eq!(trigger_label(&trig("StartupTrigger", None, None, None)), "On server startup");
    let daily = trig("DailyTrigger", Some(3 * 36_000_000_000 + 5 * 600_000_000), None, None);
    assert_eq!(trigger_label(&daily), "Daily at 03:05");
    let weekly = trig("WeeklyTrigger", Some(23 * 36_000_000_000), None, Some("Friday"));
    assert_eq!(trigger_label(&weekly), "Weekly on Friday at 23:00");
    let hours = trig("IntervalTrigger", None, Some(6 * 36_000_000_000), None);
    assert_eq!(trigger_label(&hours), "Every 6 hour(s)");
    let mins = trig("IntervalTrigger", None, Some(90 * 600_000_000), None);
    assert_eq!(trigger_label(&mins), "Every 90 minute(s)");
}

#[test]
fn new_triggers_from_the_form() {
    let t = new_trigger(TriggerKind::Daily, "25", "-3", "Sunday", "", "");
    assert_eq!(t.trigger_type.as_deref(), Some("DailyTrigger"));
    assert_eq!(t.time_of_day_ticks, Some(23 * 36_000_000_000));
    assert_eq!(t.day_of_week, None);
    let t = new_trigger(TriggerKind::Weekly, "7", "30", "Monday", "", "");
    assert_eq!(t.time_of_day_ticks, Some(7 * 36_000_000_000 + 30 * 600_000_000));
    assert_eq!(t.day_of_week.as_deref(), Some("Monday"));
    assert!(interval_in_range("abc", "hours"));
    let t = new_trigger(TriggerKind::Interval, "", "", "", "abc", "hours");
    assert_eq!(t.interval_ticks, Some(24 * 36_000_000_000));
    let t = new_trigger(TriggerKind::Interval, "", "", "", "0", "minutes");
    assert_eq!(t.interval_ticks, Some(600_000_000));
    let t = new_trigger(TriggerKind::Startup, "", "", "", "", "");
    assert_eq!(t.trigger_type.as_deref(), Some("StartupTrigger"));
    assert_eq!(t.interval_ticks, None);
    assert!(!interval_in_range("9223372036854775807", "minutes"));
}

#[test]
fn trigger_kind_names_round_trip() {
    for k in [TriggerKind::Daily, TriggerKind::Weekly, TriggerKind::Interval, TriggerKind::Startup] {
        assert_eq!(parse_kind(kind_to_str(k)), Some(k));
    }
    assert_eq!(parse_kind("Nope"), None);
}
