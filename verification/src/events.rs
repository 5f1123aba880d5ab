//! What arrives from the framework: lifecycle events and requests.

use vstd::prelude::*;

verus! {

/// The kind of a framework event.
#[derive(Clone, Copy, Debug, PartialEq, Eq, Structural)]
pub enum EventType {
    AppForeground,
    AppBackground,
    ScreenOn,
    ScreenOff,
    /// Any kind that the governor does not act on.
    Other,
}

/// A framework event as it is delivered. For the two application events
/// `target_package` names the package and `source_package` carries the pid
/// of its process, in decimal.
#[derive(Clone, Debug, PartialEq, Eq)]
pub struct FrameworkEvent {
    pub event_type: EventType,
    pub source_package: String,
    pub target_package: String,
    pub timestamp: i64,
}

/// Why a frozen package is to run for a while.
#[derive(Clone, Debug, PartialEq, Eq)]
pub struct UnfreezeReason {
    pub label: String,
}

/// What `str::parse::<i32>` makes of a text: the number, or `None` where
/// the text is not one that fits.
pub uninterp spec fn parsed_i32(text: Seq<char>) -> Option<i32>;

/// `str::parse::<i32>`, its error dropped.
#[verifier::external_body]
fn parse_i32(text: &str) -> (parsed: Option<i32>)
    ensures
        parsed == parsed_i32(text@),
{
    text.parse::<i32>().ok()
}

/// The pid that a pid field carries: the parsed number, and 0, which names
/// no process, where the field does not parse.
pub open spec fn spec_pid_of(field: Seq<char>) -> i32 {
    match parsed_i32(field) {
        Some(pid) => pid,
        None => 0,
    }
}

/// Reads the pid out of a pid field.
pub fn pid_of(field: &str) -> (pid: i32)
    ensures
        pid == spec_pid_of(field@),
{
    match parse_i32(field) {
        Some(pid) => pid,
        None => 0,
    }
}

} // verus!
