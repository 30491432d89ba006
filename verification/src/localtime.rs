use vstd::prelude::*;

use chrono::TimeZone;

verus! {

/// How the local timezone maps a millisecond timestamp to a local instant.
#[derive(Debug, Clone, Copy, PartialEq, Eq)]
pub enum LocalTimeKind {
    /// The timestamp denotes exactly one local instant.
    Unique,
    /// The local reading is ambiguous (a repeated clock hour).
    Ambiguous,
    /// No local instant corresponds: a skipped clock hour, or a timestamp out
    /// of the representable range.
    Nonexistent,
}

/// Millisecond timestamps within this distance of the Unix epoch (about
/// 253,000 years) are well inside the range chrono documents as
/// representable (about 262,000 years either way).
pub const ACCEPTED_ENDTIME_BOUND_MS: i64 = 8_000_000_000_000_000;

/// Relies on chrono's `TimeZone::timestamp_millis_opt` on `Local`: the three
/// outcomes are reported as they come, and a timestamp within the documented
/// representable range maps from UTC to exactly one local instant.
#[verifier::external_body]
pub(crate) fn classify_local_millis(end_time: i64) -> (r: LocalTimeKind)
    ensures
        -ACCEPTED_ENDTIME_BOUND_MS <= end_time <= ACCEPTED_ENDTIME_BOUND_MS ==> r is Unique,
{
    match chrono::Local.timestamp_millis_opt(end_time) {
        chrono::LocalResult::Single(_) => LocalTimeKind::Unique,
        chrono::LocalResult::Ambiguous(_, _) => LocalTimeKind::Ambiguous,
        chrono::LocalResult::None => LocalTimeKind::Nonexistent,
    }
}

/// Relies on chrono's `Local::now` (converting its result with
/// `DateTime::timestamp_millis`): the current wall-clock time in milliseconds
/// since the Unix epoch. Nothing is promised of the value — the clock may
/// move, even backward, between calls.
#[verifier::external_body]
pub(crate) fn now_millis() -> i64 {
    chrono::Local::now().timestamp_millis()
}

} // verus!
