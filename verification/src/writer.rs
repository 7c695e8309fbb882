//! One tick of the writer: a fresh marker for the primary, and what follows
//! the store's answer.

use vstd::prelude::*;

verus! {

/// Milliseconds between two writes.
pub const WRITE_PERIOD_MS: u64 = 1000;

/// How an attempt to persist a marker ended.
#[derive(Clone, Copy, Debug, PartialEq, Eq, Structural)]
pub enum WriteOutcome {
    /// The primary stored a new row.
    Persisted,
    /// The write failed; no row was added.
    Failed,
}

/// What the writer does after an attempt. Either way it goes on to its next
/// tick: there is no retry within a tick and no way to stop.
#[derive(Clone, Copy, Debug, PartialEq, Eq, Structural)]
pub enum WriterAction {
    /// Nothing to say.
    Proceed,
    /// Log the failure as a write failure.
    ReportFailure,
}

/// The outcome that stands for a store client's answer, whatever its error type.
pub open spec fn outcome_of<E>(answer: Result<(), E>) -> WriteOutcome {
    match answer {
        Ok(_) => WriteOutcome::Persisted,
        Err(_) => WriteOutcome::Failed,
    }
}

/// The action a write's outcome calls for.
pub open spec fn action_for(outcome: WriteOutcome) -> WriterAction {
    match outcome {
        WriteOutcome::Persisted => WriterAction::Proceed,
        WriteOutcome::Failed => WriterAction::ReportFailure,
    }
}

impl WriteOutcome {
    /// Reads a store client's answer to a write. The error itself stays with
    /// the caller, who logs it.
    pub fn from_result<E>(answer: &Result<(), E>) -> (outcome: WriteOutcome)
        ensures
            outcome == outcome_of(*answer),
    {
        match answer {
            Ok(_) => WriteOutcome::Persisted,
            Err(_) => WriteOutcome::Failed,
        }
    }
}

/// The system clock in milliseconds since 1970-01-01 00:00:00 UTC, from
/// chrono's conversion of `std::time::SystemTime::now()` into a
/// `DateTime<Utc>` and that type's `timestamp_millis`.
///
/// Trusted, and nothing is claimed of the result: the conversion counts
/// backwards for a clock that stands before the epoch, so the reading may be
/// negative. It returns for every reading within chrono's range of dates,
/// some 262,000 years to either side of the epoch.
#[verifier::external_body]
fn clock_millis() -> (millis: i64)
{
    chrono::DateTime::<chrono::Utc>::from(std::time::SystemTime::now()).timestamp_millis()
}

/// Turns a clock reading into the marker of a write. A reading before the
/// epoch gives no marker: markers count forward from the epoch, and a
/// register would hold a negative one above every marker that follows it.
pub fn marker_at(millis: i64) -> (marker: Option<i64>)
    ensures
        millis >= 0 ==> marker == Some(millis),
        millis < 0 ==> marker is None,
{
    if millis >= 0 {
        Some(millis)
    } else {
        None
    }
}

/// The marker for a write that starts now: the current wall-clock time in
/// milliseconds, or none while the system clock stands before the epoch.
/// Two calls may return any two values; all that is known of a marker is
/// that it is not negative.
pub fn next_marker() -> (marker: Option<i64>)
    ensures
        marker matches Some(m) ==> m >= 0,
{
    marker_at(clock_millis())
}

/// Decides what the writer does after an attempt: a failure is logged,
/// a success is not, and the writer carries on in both cases.
pub fn writer_action(outcome: &WriteOutcome) -> (action: WriterAction)
    ensures
        action == action_for(*outcome),
{
    match outcome {
        WriteOutcome::Persisted => WriterAction::Proceed,
        WriteOutcome::Failed => WriterAction::ReportFailure,
    }
}

} // verus!
