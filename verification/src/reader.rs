//! One tick of a reader: from the answer of its endpoint to what happens to
//! the register it owns.

use vstd::prelude::*;
use crate::marker::{register_image, register_value};

verus! {

/// Milliseconds between two polls of one reader.
pub const POLL_PERIOD_MS: u64 = 250;

/// What a query for the row with the largest marker came back with.
#[derive(Clone, Copy, Debug, PartialEq, Eq, Structural)]
pub enum ReadOutcome {
    /// The endpoint holds rows; this is the one with the largest marker.
    Row { id: i64, value: i64 },
    /// The endpoint answered and holds no row yet.
    Empty,
    /// The query failed.
    Failed,
}

/// What a reader does with its register, and with its log, after a poll.
#[derive(Clone, Copy, Debug, PartialEq, Eq, Structural)]
pub enum ReaderAction {
    /// Overwrite the register with this value.
    Store(u64),
    /// Leave the register as it is and say nothing.
    Keep,
    /// Leave the register as it is and log the failure under the reader's role.
    ReportFailure,
}

/// The outcome that stands for a store client's answer, whatever its error type.
pub open spec fn outcome_of<E>(answer: Result<Option<(i64, i64)>, E>) -> ReadOutcome {
    match answer {
        Ok(Some((id, value))) => ReadOutcome::Row { id, value },
        Ok(None) => ReadOutcome::Empty,
        Err(_) => ReadOutcome::Failed,
    }
}

/// The action a poll's outcome calls for.
pub open spec fn action_for(outcome: ReadOutcome) -> ReaderAction {
    match outcome {
        ReadOutcome::Row { id, value } => ReaderAction::Store(register_image(value)),
        ReadOutcome::Empty => ReaderAction::Keep,
        ReadOutcome::Failed => ReaderAction::ReportFailure,
    }
}

/// The value of a register that held `prior` once `action` has been carried out.
pub open spec fn register_under(prior: u64, action: ReaderAction) -> u64 {
    match action {
        ReaderAction::Store(value) => value,
        ReaderAction::Keep => prior,
        ReaderAction::ReportFailure => prior,
    }
}

/// The value of a register that held `prior` once its reader has handled `outcome`.
pub open spec fn register_after(prior: u64, outcome: ReadOutcome) -> u64 {
    register_under(prior, action_for(outcome))
}

impl ReadOutcome {
    /// Reads a store client's answer: a row, no row, or a failure. The error
    /// itself stays with the caller, who logs it.
    pub fn from_result<E>(answer: &Result<Option<(i64, i64)>, E>) -> (outcome: ReadOutcome)
        ensures
            outcome == outcome_of(*answer),
    {
        match answer {
            Ok(Some((id, value))) => ReadOutcome::Row { id: *id, value: *value },
            Ok(None) => ReadOutcome::Empty,
            Err(_) => ReadOutcome::Failed,
        }
    }
}

/// Decides what a reader does after a poll: a row overwrites the register
/// with the row's marker, an empty store and a failed query leave it alone,
/// and only the failure is logged.
pub fn reader_action(outcome: &ReadOutcome) -> (action: ReaderAction)
    ensures
        action == action_for(*outcome),
{
    match outcome {
        ReadOutcome::Row { id: _, value } => ReaderAction::Store(register_value(*value)),
        ReadOutcome::Empty => ReaderAction::Keep,
        ReadOutcome::Failed => ReaderAction::ReportFailure,
    }
}

/// The value of a register that held `prior` once its reader has handled
/// `outcomes`, oldest first.
pub open spec fn register_after_all(prior: u64, outcomes: Seq<ReadOutcome>) -> u64
    decreases outcomes.len(),
{
    if outcomes.len() == 0 {
        prior
    } else {
        register_after(register_after_all(prior, outcomes.drop_last()), outcomes.last())
    }
}

/// Whether none of `outcomes` brought a row.
pub open spec fn no_row(outcomes: Seq<ReadOutcome>) -> bool {
    forall|k: int| 0 <= k < outcomes.len() ==> !(#[trigger] outcomes[k] is Row)
}

/// Whether the poll at index `k` brought a row and none after it did.
pub open spec fn last_row_at(outcomes: Seq<ReadOutcome>, k: int) -> bool {
    &&& 0 <= k < outcomes.len()
    &&& outcomes[k] is Row
    &&& forall|m: int| k < m < outcomes.len() ==> !(#[trigger] outcomes[m] is Row)
}

/// A poll that fails, or finds the store empty, leaves the register at the
/// value it had, whatever that value was; a poll that brings a row leaves
/// the row's marker there.
pub proof fn lemma_register_after_poll(prior: u64, outcome: ReadOutcome)
    ensures
        outcome is Failed ==> register_after(prior, outcome) == prior,
        outcome is Empty ==> register_after(prior, outcome) == prior,
        outcome matches ReadOutcome::Row { id, value } ==> register_after(prior, outcome)
            == register_image(value),
{
}

/// Over any number of polls that bring no row (failures, empty stores, in
/// any mix) the register stays pinned at the value it had before them.
pub proof fn lemma_register_pinned_without_rows(prior: u64, outcomes: Seq<ReadOutcome>)
    requires
        no_row(outcomes),
    ensures
        register_after_all(prior, outcomes) == prior,
    decreases outcomes.len(),
{
    if outcomes.len() > 0 {
        let earlier = outcomes.drop_last();
        assert forall|k: int| 0 <= k < earlier.len() implies !(#[trigger] earlier[k] is Row) by {
            assert(earlier[k] == outcomes[k]);
        }
        lemma_register_pinned_without_rows(prior, earlier);
        assert(!(outcomes[outcomes.len() - 1] is Row));
    }
}

/// After any polls the register holds exactly the marker of the last row
/// that a poll brought, whatever it held before and however many polls
/// failed in between: it jumps to that marker and to nothing else.
pub proof fn lemma_register_is_last_row(prior: u64, outcomes: Seq<ReadOutcome>, k: int)
    requires
        last_row_at(outcomes, k),
    ensures
        register_after_all(prior, outcomes) == register_image(outcomes[k]->value),
    decreases outcomes.len(),
{
    let earlier = outcomes.drop_last();
    if k < outcomes.len() - 1 {
        assert(!(outcomes[outcomes.len() - 1] is Row));
        assert(earlier[k] == outcomes[k]);
        assert forall|m: int| k < m < earlier.len() implies !(#[trigger] earlier[m] is Row) by {
            assert(earlier[m] == outcomes[m]);
        }
        lemma_register_is_last_row(prior, earlier, k);
    }
}

/// Among the first `n` polls, either none brought a row or one of them was
/// the last to do so; returns its index, or -1.
pub proof fn lemma_last_row_before(outcomes: Seq<ReadOutcome>, n: int) -> (k: int)
    requires
        0 <= n <= outcomes.len(),
    ensures
        -1 <= k < n,
        k == -1 ==> no_row(outcomes.take(n)),
        k >= 0 ==> last_row_at(outcomes.take(n), k),
    decreases n,
{
    if n == 0 {
        -1
    } else if outcomes[n - 1] is Row {
        assert(outcomes.take(n)[n - 1] == outcomes[n - 1]);
        n - 1
    } else {
        let k = lemma_last_row_before(outcomes, n - 1);
        let shorter = outcomes.take(n - 1);
        let longer = outcomes.take(n);
        if k == -1 {
            assert forall|m: int| 0 <= m < longer.len() implies !(#[trigger] longer[m] is Row) by {
                if m < n - 1 {
                    assert(shorter[m] == longer[m]);
                }
            }
        } else {
            assert(shorter[k] == longer[k]);
            assert forall|m: int| k < m < longer.len() implies !(#[trigger] longer[m] is Row) by {
                if m < n - 1 {
                    assert(shorter[m] == longer[m]);
                }
            }
        }
        k
    }
}

} // verus!
