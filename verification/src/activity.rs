//! Activity log presentation helpers.

use vstd::prelude::*;
use crate::text::{str_eq, chars_of, push_str, string_of};

verus! {

/// The inline colour used for an activity-log severity: errors and critical
/// entries are red, warnings amber, everything else muted.
pub open spec fn severity_color_spec(severity: Seq<char>) -> Seq<char> {
    if severity == "Error"@ || severity == "Critical"@ {
        "var(--error)"@
    } else if severity == "Warning"@ {
        "var(--warning, #f59e0b)"@
    } else {
        "var(--text-muted)"@
    }
}

/// Maps a Jellyfin `LogLevel` severity name to an inline colour.
pub fn severity_color(severity: &str) -> (color: &'static str)
    ensures
        color@ == severity_color_spec(severity@),
{
    if str_eq(severity, "Error") || str_eq(severity, "Critical") {
        "var(--error)"
    } else if str_eq(severity, "Warning") {
        "var(--warning, #f59e0b)"
    } else {
        "var(--text-muted)"
    }
}

/// The severity an entry is shown with: its own, or `Information` when the
/// server gives none.
pub fn severity_or_default(severity: Option<&str>) -> (r: String)
    ensures
        r@ == match severity {
            Some(s) => s@,
            None => "Information"@,
        },
{
    match severity {
        Some(s) => string_of(&chars_of(s)),
        None => string_of(&chars_of("Information")),
    }
}

/// One page of the activity log to fetch.
#[derive(Clone, Copy, PartialEq, Eq, Structural, Debug)]
pub struct ActivityQuery {
    pub start_index: i64,
    pub limit: i64,
}

/// The page after the `loaded` entries already shown, fifty entries at a
/// time; the first load asks from the start (`loaded` zero).
pub fn activity_query(loaded: usize) -> (q: ActivityQuery)
    ensures
        q.start_index == loaded as i64,
        q.limit == 50,
{
    ActivityQuery { start_index: loaded as i64, limit: 50 }
}

/// A load of the activity log that failed: the first page, or more.
#[derive(Clone, Copy, PartialEq, Eq, Structural, Debug)]
pub enum ActivityFailure {
    Load,
    LoadMore,
}

/// The error shown when a load fails: what failed, then the message.
pub fn activity_failure_text(f: ActivityFailure, message: &str) -> (r: String)
    ensures
        r@ == match f {
            ActivityFailure::Load => "Failed to load activity log: "@,
            ActivityFailure::LoadMore => "Failed to load more: "@,
        } + message@,
{
    let mut out: Vec<char> = Vec::new();
    match f {
        ActivityFailure::Load => push_str(&mut out, "Failed to load activity log: "),
        ActivityFailure::LoadMore => push_str(&mut out, "Failed to load more: "),
    }
    push_str(&mut out, message);
    string_of(&out)
}

} // verus!
