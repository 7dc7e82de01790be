//! Scheduled-task triggers: how a trigger is described, and the trigger the
//! "Add trigger" form builds.

use vstd::prelude::*;
use crate::num::{fmt_int, pad2, parse_i64_chars, parse_i64_spec, push_i64, push_pad2};
use crate::text::{chars_of, push_str, str_eq, string_of};

verus! {

/// The kinds of scheduled-task trigger.
#[derive(Clone, Copy, PartialEq, Eq, Structural, Debug)]
pub enum TriggerKind {
    Daily,
    Weekly,
    Interval,
    Startup,
}

/// A scheduled-task trigger as the server stores it.
#[derive(Debug)]
pub struct TaskTrigger {
    pub trigger_type: Option<String>,
    pub time_of_day_ticks: Option<i64>,
    pub interval_ticks: Option<i64>,
    pub day_of_week: Option<String>,
}

/// The mathematical value of a [`TaskTrigger`].
pub struct TriggerModel {
    pub trigger_type: Option<Seq<char>>,
    pub time_of_day_ticks: Option<i64>,
    pub interval_ticks: Option<i64>,
    pub day_of_week: Option<Seq<char>>,
}

impl View for TaskTrigger {
    type V = TriggerModel;

    open spec fn view(&self) -> TriggerModel {
        TriggerModel {
            trigger_type: self.trigger_type.deep_view(),
            time_of_day_ticks: self.time_of_day_ticks,
            interval_ticks: self.interval_ticks,
            day_of_week: self.day_of_week.deep_view(),
        }
    }
}

/// Ticks (100 ns) per second, per minute and per hour.
pub open spec fn ticks_per_second() -> int { 10_000_000 }
pub open spec fn ticks_per_minute() -> int { 600_000_000 }
pub open spec fn ticks_per_hour() -> int { 36_000_000_000 }

/// Integer division rounding toward zero, as Rust's `/` does.
pub open spec fn tdiv(a: int, b: int) -> int
    recommends
        b > 0,
{
    if a >= 0 {
        a / b
    } else {
        -((-a) / b)
    }
}

/// The remainder of [`tdiv`], as Rust's `%` gives it.
pub open spec fn trem(a: int, b: int) -> int {
    a - b * tdiv(a, b)
}

/// The name a trigger kind is stored under.
pub open spec fn kind_name(k: TriggerKind) -> Seq<char> {
    match k {
        TriggerKind::Daily => "DailyTrigger"@,
        TriggerKind::Weekly => "WeeklyTrigger"@,
        TriggerKind::Interval => "IntervalTrigger"@,
        TriggerKind::Startup => "StartupTrigger"@,
    }
}

/// The kind a stored name denotes, if any.
pub open spec fn kind_of(name: Seq<char>) -> Option<TriggerKind> {
    if name == "DailyTrigger"@ {
        Some(TriggerKind::Daily)
    } else if name == "WeeklyTrigger"@ {
        Some(TriggerKind::Weekly)
    } else if name == "IntervalTrigger"@ {
        Some(TriggerKind::Interval)
    } else if name == "StartupTrigger"@ {
        Some(TriggerKind::Startup)
    } else {
        None
    }
}

/// The kind of a trigger, if its type names one.
pub open spec fn trigger_kind(t: TriggerModel) -> Option<TriggerKind> {
    match t.trigger_type {
        Some(n) => kind_of(n),
        None => None,
    }
}

/// `HH:MM` for a time of day given in ticks, as `{:02}:{:02}` prints the
/// truncated hour and minute.
pub open spec fn clock_text(ticks: int) -> Seq<char> {
    let secs = tdiv(ticks, ticks_per_second());
    pad2(tdiv(secs, 3600)) + ":"@ + pad2(tdiv(trem(secs, 3600), 60))
}

/// The description of a trigger shown in the trigger list.
pub open spec fn trigger_label_spec(t: TriggerModel) -> Seq<char> {
    match trigger_kind(t) {
        Some(TriggerKind::Startup) => "On server startup"@,
        Some(TriggerKind::Daily) => {
            let ticks = match t.time_of_day_ticks {
                Some(v) => v as int,
                None => 0,
            };
            "Daily at "@ + clock_text(ticks)
        },
        Some(TriggerKind::Weekly) => {
            let ticks = match t.time_of_day_ticks {
                Some(v) => v as int,
                None => 0,
            };
            let day = match t.day_of_week {
                Some(d) => d,
                None => "Sunday"@,
            };
            "Weekly on "@ + day + " at "@ + clock_text(ticks)
        },
        Some(TriggerKind::Interval) => {
            let ticks = match t.interval_ticks {
                Some(v) => v as int,
                None => 0,
            };
            if trem(ticks, ticks_per_hour()) == 0 {
                "Every "@ + fmt_int(tdiv(ticks, ticks_per_hour())) + " hour(s)"@
            } else {
                "Every "@ + fmt_int(tdiv(ticks, ticks_per_minute())) + " minute(s)"@
            }
        },
        None => "Unknown"@,
    }
}

fn tdiv_exec(a: i64, b: i64) -> (q: i64)
    requires
        b > 0,
    ensures
        q == tdiv(a as int, b as int),
{
    let a2: i128 = a as i128;
    let b2: i128 = b as i128;
    if a2 >= 0 {
        (a2 / b2) as i64
    } else {
        let m: i128 = 0 - a2;
        let r: i128 = m / b2;
        assert(r <= m);
        (0 - r) as i64
    }
}

fn trem_exec(a: i64, b: i64) -> (r: i64)
    requires
        b > 0,
    ensures
        r == trem(a as int, b as int),
{
    let a2: i128 = a as i128;
    let b2: i128 = b as i128;
    if a2 >= 0 {
        proof {
            vstd::arithmetic::div_mod::lemma_fundamental_div_mod(a as int, b as int);
            assert(a as int == (b as int) * ((a as int) / (b as int)) + (a as int) % (b as int));
        }
        (a2 % b2) as i64
    } else {
        let m: i128 = 0 - a2;
        proof {
            vstd::arithmetic::div_mod::lemma_fundamental_div_mod(m as int, b as int);
            assert(m as int == (b as int) * ((m as int) / (b as int)) + (m as int) % (b as int));
            assert(tdiv(a as int, b as int) == -((m as int) / (b as int)));
            assert((b as int) * (-((m as int) / (b as int))) == -((b as int) * ((m as int) / (b as int)))) by (nonlinear_arith);
        }
        let r: i128 = m % b2;
        (0 - r) as i64
    }
}

fn push_clock(ticks: i64, out: &mut Vec<char>)
    ensures
        final(out)@ == old(out)@ + clock_text(ticks as int),
{
    let secs = tdiv_exec(ticks, 10_000_000);
    let hour = tdiv_exec(secs, 3600);
    let min = tdiv_exec(trem_exec(secs, 3600), 60);
    push_pad2(hour, out);
    out.push(':');
    push_pad2(min, out);
    proof {
        reveal_strlit(":");
    }
    assert(final(out)@ =~= old(out)@ + clock_text(ticks as int));
}

/// The kind that a stored trigger type names.
pub fn parse_kind(name: &str) -> (k: Option<TriggerKind>)
    ensures
        k == kind_of(name@),
{
    if str_eq(name, "DailyTrigger") {
        Some(TriggerKind::Daily)
    } else if str_eq(name, "WeeklyTrigger") {
        Some(TriggerKind::Weekly)
    } else if str_eq(name, "IntervalTrigger") {
        Some(TriggerKind::Interval)
    } else if str_eq(name, "StartupTrigger") {
        Some(TriggerKind::Startup)
    } else {
        None
    }
}

/// The name a trigger kind is stored under.
pub fn kind_to_str(k: TriggerKind) -> (s: &'static str)
    ensures
        s@ == kind_name(k),
{
    match k {
        TriggerKind::Daily => "DailyTrigger",
        TriggerKind::Weekly => "WeeklyTrigger",
        TriggerKind::Interval => "IntervalTrigger",
        TriggerKind::Startup => "StartupTrigger",
    }
}

/// Describes a trigger for the trigger list, e.g. `Daily at 03:00`.
pub fn trigger_label(t: &TaskTrigger) -> (s: String)
    ensures
        s@ == trigger_label_spec(t@),
{
    let kind = match &t.trigger_type {
        Some(name) => parse_kind(name.as_str()),
        None => None,
    };
    let mut out: Vec<char> = Vec::new();
    match kind {
        Some(TriggerKind::Startup) => {
            push_str(&mut out, "On server startup");
        },
        Some(TriggerKind::Daily) => {
            let ticks = match t.time_of_day_ticks {
                Some(v) => v,
                None => 0,
            };
            push_str(&mut out, "Daily at ");
            push_clock(ticks, &mut out);
        },
        Some(TriggerKind::Weekly) => {
            let ticks = match t.time_of_day_ticks {
                Some(v) => v,
                None => 0,
            };
            push_str(&mut out, "Weekly on ");
            match &t.day_of_week {
                Some(d) => push_str(&mut out, d.as_str()),
                None => push_str(&mut out, "Sunday"),
            }
            push_str(&mut out, " at ");
            push_clock(ticks, &mut out);
        },
        Some(TriggerKind::Interval) => {
            let ticks = match t.interval_ticks {
                Some(v) => v,
                None => 0,
            };
            push_str(&mut out, "Every ");
            if trem_exec(ticks, 36_000_000_000) == 0 {
                push_i64(tdiv_exec(ticks, 36_000_000_000), &mut out);
                push_str(&mut out, " hour(s)");
            } else {
                push_i64(tdiv_exec(ticks, 600_000_000), &mut out);
                push_str(&mut out, " minute(s)");
            }
        },
        None => {
            push_str(&mut out, "Unknown");
        },
    }
    assert(out@ =~= trigger_label_spec(t@));
    string_of(&out)
}

/// `v` limited to `lo..=hi`, as `Ord::clamp` does.
pub open spec fn clamp(v: int, lo: int, hi: int) -> int {
    if v < lo {
        lo
    } else if v > hi {
        hi
    } else {
        v
    }
}

/// A whole number typed into the form, or `default` when the text is not one.
pub open spec fn number_or(text: Seq<char>, default: int) -> int {
    match parse_i64_spec(text) {
        Some(v) => v as int,
        None => default,
    }
}

/// The interval count the form reads: the number typed (24 when it is not a
/// number), at least 1.
pub open spec fn interval_count(text: Seq<char>) -> int {
    let v = number_or(text, 24);
    if v < 1 {
        1
    } else {
        v
    }
}

/// Ticks in one interval unit: a minute for `minutes`, else an hour.
pub open spec fn interval_unit_ticks(unit: Seq<char>) -> int {
    if unit == "minutes"@ {
        ticks_per_minute()
    } else {
        ticks_per_hour()
    }
}

/// The trigger the "Add trigger" form builds from its fields.
pub open spec fn new_trigger_spec(
    kind: TriggerKind,
    hour: Seq<char>,
    minute: Seq<char>,
    day: Seq<char>,
    interval_value: Seq<char>,
    interval_unit: Seq<char>,
) -> TriggerModel {
    match kind {
        TriggerKind::Startup => TriggerModel {
            trigger_type: Some(kind_name(kind)),
            time_of_day_ticks: None,
            interval_ticks: None,
            day_of_week: None,
        },
        TriggerKind::Interval => TriggerModel {
            trigger_type: Some(kind_name(kind)),
            time_of_day_ticks: None,
            interval_ticks: Some(
                (interval_count(interval_value) * interval_unit_ticks(interval_unit)) as i64,
            ),
            day_of_week: None,
        },
        _ => {
            let h = clamp(number_or(hour, 0), 0, 23);
            let m = clamp(number_or(minute, 0), 0, 59);
            TriggerModel {
                trigger_type: Some(kind_name(kind)),
                time_of_day_ticks: Some((h * ticks_per_hour() + m * ticks_per_minute()) as i64),
                interval_ticks: None,
                day_of_week: if kind == TriggerKind::Weekly {
                    Some(day)
                } else {
                    None
                },
            }
        },
    }
}

/// Does an interval of `interval_value` units fit in 64-bit ticks?
pub open spec fn interval_fits(interval_value: Seq<char>, interval_unit: Seq<char>) -> bool {
    interval_count(interval_value) * interval_unit_ticks(interval_unit) <= i64::MAX
}

fn number_or_exec(text: &str, default: i64) -> (v: i64)
    ensures
        v == number_or(text@, default as int),
{
    match parse_i64_chars(&chars_of(text)) {
        Some(v) => v,
        None => default,
    }
}

/// Does the interval typed into the form fit in 64-bit ticks?
pub fn interval_in_range(interval_value: &str, interval_unit: &str) -> (b: bool)
    ensures
        b == interval_fits(interval_value@, interval_unit@),
{
    let v = number_or_exec(interval_value, 24);
    let count: i64 = if v < 1 {
        1
    } else {
        v
    };
    let unit: i64 = if str_eq(interval_unit, "minutes") {
        600_000_000
    } else {
        36_000_000_000
    };
    let limit: i64 = i64::MAX / unit;
    proof {
        assert(count * unit <= i64::MAX <==> count <= limit) by (nonlinear_arith)
            requires
                unit > 0,
                count >= 1,
                limit == i64::MAX / unit,
        ;
    }
    count <= limit
}

/// Builds the trigger described by the "Add trigger" form.
pub fn new_trigger(
    kind: TriggerKind,
    hour: &str,
    minute: &str,
    day: &str,
    interval_value: &str,
    interval_unit: &str,
) -> (t: TaskTrigger)
    requires
        kind == TriggerKind::Interval ==> interval_fits(interval_value@, interval_unit@),
    ensures
        t@ == new_trigger_spec(kind, hour@, minute@, day@, interval_value@, interval_unit@),
{
    let name = Some(String::from_str(kind_to_str(kind)));
    match kind {
        TriggerKind::Startup => TaskTrigger {
            trigger_type: name,
            time_of_day_ticks: None,
            interval_ticks: None,
            day_of_week: None,
        },
        TriggerKind::Interval => {
            let v = number_or_exec(interval_value, 24);
            let count: i64 = if v < 1 {
                1
            } else {
                v
            };
            let unit: i64 = if str_eq(interval_unit, "minutes") {
                600_000_000
            } else {
                36_000_000_000
            };
            TaskTrigger {
                trigger_type: name,
                time_of_day_ticks: None,
                interval_ticks: Some(count * unit),
                day_of_week: None,
            }
        },
        _ => {
            let h0 = number_or_exec(hour, 0);
            let m0 = number_or_exec(minute, 0);
            let h: i64 = if h0 < 0 {
                0
            } else if h0 > 23 {
                23
            } else {
                h0
            };
            let m: i64 = if m0 < 0 {
                0
            } else if m0 > 59 {
                59
            } else {
                m0
            };
            TaskTrigger {
                trigger_type: name,
                time_of_day_ticks: Some(h * 36_000_000_000 + m * 600_000_000),
                interval_ticks: None,
                day_of_week: if kind == TriggerKind::Weekly {
                    Some(String::from_str(day))
                } else {
                    None
                },
            }
        },
    }
}

proof fn lemma_kind_names_distinct()
    ensures
        kind_of("DailyTrigger"@) == Some(TriggerKind::Daily),
        kind_of("WeeklyTrigger"@) == Some(TriggerKind::Weekly),
        kind_of("IntervalTrigger"@) == Some(TriggerKind::Interval),
        kind_of("StartupTrigger"@) == Some(TriggerKind::Startup),
{
    reveal_strlit("DailyTrigger");
    reveal_strlit("WeeklyTrigger");
    reveal_strlit("IntervalTrigger");
    reveal_strlit("StartupTrigger");
    assert("WeeklyTrigger"@[0] != "DailyTrigger"@[0]);
    assert("IntervalTrigger"@[0] != "DailyTrigger"@[0]);
    assert("IntervalTrigger"@[0] != "WeeklyTrigger"@[0]);
    assert("StartupTrigger"@[0] != "DailyTrigger"@[0]);
    assert("StartupTrigger"@[0] != "WeeklyTrigger"@[0]);
    assert("StartupTrigger"@[0] != "IntervalTrigger"@[0]);
}

/// The stored name of each kind reads back as that kind.
pub proof fn lemma_kind_roundtrip(k: TriggerKind)
    ensures
        kind_of(kind_name(k)) == Some(k),
{
    lemma_kind_names_distinct();
}

/// A time of day built from an hour and a minute in range shows that hour and
/// minute.
proof fn lemma_clock_of(h: int, m: int)
    requires
        0 <= h <= 23,
        0 <= m <= 59,
    ensures
        clock_text(h * ticks_per_hour() + m * ticks_per_minute()) == pad2(h) + ":"@ + pad2(m),
{
    let ticks = h * ticks_per_hour() + m * ticks_per_minute();
    let secs = h * 3600 + m * 60;
    assert(ticks / 10_000_000 == secs);
    assert(secs / 3600 == h);
    assert(secs % 3600 == m * 60);
    assert(trem(secs, 3600) == m * 60);
    assert((m * 60) / 60 == m);
}

/// A daily or weekly trigger added through the form is described with the
/// hour and minute the form held, each clamped to its range.
pub proof fn law_timed_trigger_label(
    kind: TriggerKind,
    hour: Seq<char>,
    minute: Seq<char>,
    day: Seq<char>,
    interval_value: Seq<char>,
    interval_unit: Seq<char>,
)
    requires
        kind == TriggerKind::Daily || kind == TriggerKind::Weekly,
    ensures
        ({
            let h = clamp(number_or(hour, 0), 0, 23);
            let m = clamp(number_or(minute, 0), 0, 59);
            let t = new_trigger_spec(kind, hour, minute, day, interval_value, interval_unit);
            trigger_label_spec(t) == if kind == TriggerKind::Daily {
                "Daily at "@ + pad2(h) + ":"@ + pad2(m)
            } else {
                "Weekly on "@ + day + " at "@ + pad2(h) + ":"@ + pad2(m)
            }
        }),
{
    let h = clamp(number_or(hour, 0), 0, 23);
    let m = clamp(number_or(minute, 0), 0, 59);
    lemma_kind_roundtrip(kind);
    lemma_clock_of(h, m);
    let t = new_trigger_spec(kind, hour, minute, day, interval_value, interval_unit);
    assert(t.time_of_day_ticks == Some((h * ticks_per_hour() + m * ticks_per_minute()) as i64));
    if kind == TriggerKind::Daily {
        assert(trigger_label_spec(t) =~= "Daily at "@ + pad2(h) + ":"@ + pad2(m));
    } else {
        assert(trigger_label_spec(t) =~= "Weekly on "@ + day + " at "@ + pad2(h) + ":"@ + pad2(m));
    }
}

/// An interval trigger added through the form is described by the count the
/// form held: in hours when that is a whole number of hours, else in minutes.
pub proof fn law_interval_trigger_label(interval_value: Seq<char>, interval_unit: Seq<char>, hour: Seq<char>, minute: Seq<char>, day: Seq<char>)
    requires
        interval_fits(interval_value, interval_unit),
    ensures
        ({
            let n = interval_count(interval_value);
            let t = new_trigger_spec(TriggerKind::Interval, hour, minute, day, interval_value, interval_unit);
            trigger_label_spec(t) == if interval_unit != "minutes"@ {
                "Every "@ + fmt_int(n) + " hour(s)"@
            } else if n % 60 == 0 {
                "Every "@ + fmt_int(n / 60) + " hour(s)"@
            } else {
                "Every "@ + fmt_int(n) + " minute(s)"@
            }
        }),
{
    let n = interval_count(interval_value);
    lemma_kind_roundtrip(TriggerKind::Interval);
    let ticks = n * interval_unit_ticks(interval_unit);
    assert(n >= 1);
    if interval_unit != "minutes"@ {
        assert(ticks == n * 36_000_000_000);
        assert(ticks / 36_000_000_000 == n) by (nonlinear_arith)
            requires ticks == n * 36_000_000_000, n >= 1;
        assert(trem(ticks, ticks_per_hour()) == 0);
    } else {
        assert(ticks == n * 600_000_000);
        assert(ticks / 600_000_000 == n) by (nonlinear_arith)
            requires ticks == n * 600_000_000, n >= 1;
        if n % 60 == 0 {
            assert(ticks / 36_000_000_000 == n / 60 && ticks % 36_000_000_000 == 0) by (nonlinear_arith)
                requires ticks == n * 600_000_000, n >= 1, n % 60 == 0;
        } else {
            assert(ticks % 36_000_000_000 != 0) by (nonlinear_arith)
                requires ticks == n * 600_000_000, n >= 1, n % 60 != 0;
        }
    }
}

/// A start-up trigger is described as such.
pub proof fn law_startup_trigger_label(hour: Seq<char>, minute: Seq<char>, day: Seq<char>, interval_value: Seq<char>, interval_unit: Seq<char>)
    ensures
        trigger_label_spec(new_trigger_spec(TriggerKind::Startup, hour, minute, day, interval_value, interval_unit))
            == "On server startup"@,
{
    lemma_kind_roundtrip(TriggerKind::Startup);
}

} // verus!
