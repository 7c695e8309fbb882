//! What a register can hold when its reader's polls are answered from an
//! append-only table of markers.
//!
//! The table of an endpoint is described by the markers it holds, oldest
//! first, and its history by the states of that table at each poll.

use vstd::prelude::*;
use crate::marker::{lemma_image_order, register_image, SENTINEL};
use crate::reader::{
    lemma_last_row_before, lemma_register_is_last_row, lemma_register_pinned_without_rows, no_row,
    register_after, register_after_all, ReadOutcome,
};

verus! {

/// Whether `marker` is the largest of `rows`.
pub open spec fn is_latest(rows: Seq<i64>, marker: i64) -> bool {
    &&& rows.contains(marker)
    &&& forall|i: int| 0 <= i < rows.len() ==> #[trigger] rows[i] <= marker
}

/// Whether `outcome` is a possible answer of an endpoint whose table holds
/// `rows`: a row carries the largest marker, "no row" means the table is
/// empty, and a query may fail on any table.
pub open spec fn answers(rows: Seq<i64>, outcome: ReadOutcome) -> bool {
    match outcome {
        ReadOutcome::Row { id, value } => is_latest(rows, value),
        ReadOutcome::Empty => rows.len() == 0,
        ReadOutcome::Failed => true,
    }
}

/// Whether each poll was answered from the table as it stood at that poll.
pub open spec fn answered_from(tables: Seq<Seq<i64>>, outcomes: Seq<ReadOutcome>) -> bool {
    &&& tables.len() == outcomes.len()
    &&& forall|k: int| 0 <= k < outcomes.len() ==> answers(#[trigger] tables[k], outcomes[k])
}

/// Whether rows were only ever added at the end of the table.
pub open spec fn append_only(tables: Seq<Seq<i64>>) -> bool {
    forall|a: int, b: int|
        0 <= a <= b < tables.len() ==> (#[trigger] tables[a]).is_prefix_of(#[trigger] tables[b])
}

/// Whether some poll brought a negative marker and a later one a marker
/// that is not negative.
pub open spec fn crosses_zero(outcomes: Seq<ReadOutcome>) -> bool {
    exists|a: int, b: int|
        {
            &&& 0 <= a < b < outcomes.len()
            &&& (#[trigger] outcomes[a]) is Row
            &&& (#[trigger] outcomes[b]) is Row
            &&& outcomes[a]->value < 0 <= outcomes[b]->value
        }
}

/// Whether `register` holds the sentinel or a marker found in `rows`.
pub open spec fn holds_persisted(register: u64, rows: Seq<i64>) -> bool {
    register == SENTINEL || exists|i: int|
        0 <= i < rows.len() && register_image(#[trigger] rows[i]) == register
}

/// An endpoint whose table is empty answers a query that succeeds with "no
/// row", and the register stays at the value it had.
pub proof fn lemma_empty_table_keeps_register(rows: Seq<i64>, prior: u64, outcome: ReadOutcome)
    requires
        rows.len() == 0,
        answers(rows, outcome),
    ensures
        outcome is Empty || outcome is Failed,
        register_after(prior, outcome) == prior,
{
    if outcome is Row {
        let i = choose|i: int| 0 <= i < rows.len() && rows[i] == outcome->value;
        assert(false);
    }
}

/// Markers that are all zero or above, as all those are that the writer
/// makes from a clock reading, never cross zero.
pub proof fn lemma_markers_from_zero_up_never_cross(outcomes: Seq<ReadOutcome>)
    requires
        forall|k: int|
            0 <= k < outcomes.len() && (#[trigger] outcomes[k]) is Row ==> outcomes[k]->value >= 0,
    ensures
        !crosses_zero(outcomes),
{
}

/// The largest marker of an append-only table never goes down.
pub proof fn lemma_latest_grows(earlier: Seq<i64>, later: Seq<i64>, before: i64, after: i64)
    requires
        earlier.is_prefix_of(later),
        is_latest(earlier, before),
        is_latest(later, after),
    ensures
        before <= after,
{
    let i = choose|i: int| 0 <= i < earlier.len() && earlier[i] == before;
    assert(later[i] == earlier[i]);
}

/// A register that holds the sentinel or a persisted marker still does so
/// after the table has grown and its reader has polled it once more: a poll
/// never puts a made-up value there.
pub proof fn lemma_poll_keeps_persisted(
    earlier: Seq<i64>,
    later: Seq<i64>,
    prior: u64,
    outcome: ReadOutcome,
)
    requires
        earlier.is_prefix_of(later),
        holds_persisted(prior, earlier),
        answers(later, outcome),
    ensures
        holds_persisted(register_after(prior, outcome), later),
{
    match outcome {
        ReadOutcome::Row { id, value } => {
            let i = choose|i: int| 0 <= i < later.len() && later[i] == value;
            assert(register_image(later[i]) == register_after(prior, outcome));
        },
        _ => {
            if prior != SENTINEL {
                let i = choose|i: int|
                    0 <= i < earlier.len() && register_image(#[trigger] earlier[i]) == prior;
                assert(later[i] == earlier[i]);
                assert(register_image(later[i]) == prior);
            }
        },
    }
}

/// From the start of the process on, after every poll, the register holds
/// the sentinel or a marker that the table held at that poll.
pub proof fn lemma_register_always_persisted(
    tables: Seq<Seq<i64>>,
    outcomes: Seq<ReadOutcome>,
    n: int,
)
    requires
        answered_from(tables, outcomes),
        append_only(tables),
        0 < n <= outcomes.len(),
    ensures
        holds_persisted(register_after_all(SENTINEL, outcomes.take(n)), tables[n - 1]),
{
    let seen = outcomes.take(n);
    let k = lemma_last_row_before(outcomes, n);
    if k == -1 {
        lemma_register_pinned_without_rows(SENTINEL, seen);
    } else {
        lemma_register_is_last_row(SENTINEL, seen, k);
        assert(seen[k] == outcomes[k]);
        assert(answers(tables[k], outcomes[k]));
        let value = outcomes[k]->value;
        let i = choose|i: int| 0 <= i < tables[k].len() && tables[k][i] == value;
        assert(tables[k].is_prefix_of(tables[n - 1]));
        assert(tables[n - 1][i] == tables[k][i]);
        assert(register_image(tables[n - 1][i]) == register_after_all(SENTINEL, seen));
    }
}

/// Once a poll has brought a row, the register never goes down again, as
/// long as every poll that succeeds fetches the largest marker of an
/// append-only table. Left out are the histories in which the largest
/// marker passes from below zero to zero or above: a negative marker is
/// held as a value above all others.
pub proof fn lemma_register_never_decreases(
    tables: Seq<Seq<i64>>,
    outcomes: Seq<ReadOutcome>,
    prior: u64,
    i: int,
    j: int,
)
    requires
        answered_from(tables, outcomes),
        append_only(tables),
        !crosses_zero(outcomes),
        0 <= i <= j <= outcomes.len(),
        !no_row(outcomes.take(i)),
    ensures
        register_after_all(prior, outcomes.take(i)) <= register_after_all(prior, outcomes.take(j)),
{
    let first = outcomes.take(i);
    let second = outcomes.take(j);
    let a = lemma_last_row_before(outcomes, i);
    let b = lemma_last_row_before(outcomes, j);
    assert(a >= 0);
    assert(first[a] == outcomes[a]);
    assert(second[a] == outcomes[a]);
    // `a` brought a row and lies among the first `j` polls, so the last row
    // among those cannot come before it.
    assert(a <= b) by {
        assert(second[a] is Row);
    }
    assert(second[b] == outcomes[b]);
    lemma_register_is_last_row(prior, first, a);
    lemma_register_is_last_row(prior, second, b);
    if a < b {
        assert(answers(tables[a], outcomes[a]));
        assert(answers(tables[b], outcomes[b]));
        lemma_latest_grows(tables[a], tables[b], outcomes[a]->value, outcomes[b]->value);
        lemma_image_order(outcomes[a]->value, outcomes[b]->value);
    }
}

} // verus!
