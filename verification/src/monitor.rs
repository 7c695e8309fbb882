//! The sampling loop as one state machine: the two registers, changed by one
//! event at a time.
//!
//! The writer, the two readers and the reporter run side by side and share
//! nothing but the registers, which are read and written whole. A run of the
//! monitor is therefore a sequence of events, each the end of one task's
//! tick, and `step` says what each of them does.

use vstd::prelude::*;
use crate::marker::lag_between;
use crate::reader::{register_after, register_after_all, ReadOutcome, ReaderAction};
use crate::register::{Registers, Role};
use crate::reporter::{report_of, LagReport};
use crate::writer::{writer_action, WriteOutcome, WriterAction};

verus! {

/// The end of one tick of one task.
#[derive(Clone, Copy, Debug, PartialEq, Eq, Structural)]
pub enum Event {
    /// The writer's attempt to persist a marker came back.
    Wrote(WriteOutcome),
    /// The reader of this role got the answer to its query.
    Polled(Role, ReadOutcome),
    /// The reporter's timer fired.
    ReportDue,
}

/// What a tick puts on the log.
#[derive(Clone, Copy, Debug, PartialEq, Eq, Structural)]
pub enum Effect {
    /// Nothing.
    Silent,
    /// An error line for a failed write.
    WriteFailure,
    /// An error line for a failed query, under the reader's role.
    ReadFailure(Role),
    /// The periodic lag line.
    Report(LagReport),
}

/// The registers after `event`.
pub open spec fn state_after(registers: Registers, event: Event) -> Registers {
    match event {
        Event::Wrote(_) => registers,
        Event::Polled(role, outcome) => registers.after_poll(role, outcome),
        Event::ReportDue => registers,
    }
}

/// What `event` puts on the log when it meets `registers`.
pub open spec fn effect_of(registers: Registers, event: Event) -> Effect {
    match event {
        Event::Wrote(WriteOutcome::Persisted) => Effect::Silent,
        Event::Wrote(WriteOutcome::Failed) => Effect::WriteFailure,
        Event::Polled(role, ReadOutcome::Failed) => Effect::ReadFailure(role),
        Event::Polled(_, _) => Effect::Silent,
        Event::ReportDue => Effect::Report(report_of(registers.primary, registers.secondary)),
    }
}

/// Whether `event` is a failed write or a failed query.
pub open spec fn is_failure(event: Event) -> bool {
    match event {
        Event::Wrote(WriteOutcome::Failed) => true,
        Event::Polled(_, ReadOutcome::Failed) => true,
        _ => false,
    }
}

/// The registers after `events`, oldest first.
pub open spec fn state_after_all(start: Registers, events: Seq<Event>) -> Registers
    decreases events.len(),
{
    if events.len() == 0 {
        start
    } else {
        state_after(state_after_all(start, events.drop_last()), events.last())
    }
}

/// The outcomes of the polls of `role` among `events`, oldest first.
pub open spec fn polls_of(events: Seq<Event>, role: Role) -> Seq<ReadOutcome>
    decreases events.len(),
{
    if events.len() == 0 {
        Seq::empty()
    } else {
        let earlier = polls_of(events.drop_last(), role);
        match events.last() {
            Event::Polled(reader, outcome) => if reader == role {
                earlier.push(outcome)
            } else {
                earlier
            },
            _ => earlier,
        }
    }
}

/// Handles one event: a poll that brings a row overwrites its reader's
/// register, a report reads both registers, and nothing else touches them.
/// Every event is handled and none stops the monitor: after a failure the
/// registers are what they were and the next event is taken as usual.
pub fn step(registers: &mut Registers, event: &Event) -> (effect: Effect)
    ensures
        *final(registers) == state_after(*old(registers), *event),
        effect == effect_of(*old(registers), *event),
        event is Wrote ==> *final(registers) == *old(registers),
        event is ReportDue ==> *final(registers) == *old(registers),
        event matches Event::Polled(_, outcome) && !(outcome is Row) ==> *final(registers) == *old(
            registers,
        ),
        effect matches Effect::Report(report) ==> report.lag_ms == lag_between(
            old(registers).primary,
            old(registers).secondary,
        ),
{
    match event {
        Event::Wrote(outcome) => match writer_action(outcome) {
            WriterAction::Proceed => Effect::Silent,
            WriterAction::ReportFailure => Effect::WriteFailure,
        },
        Event::Polled(role, outcome) => match registers.observe(*role, outcome) {
            ReaderAction::Store(_) => Effect::Silent,
            ReaderAction::Keep => Effect::Silent,
            ReaderAction::ReportFailure => Effect::ReadFailure(*role),
        },
        Event::ReportDue => Effect::Report(registers.snapshot()),
    }
}

/// A write, failed or not, changes no register; a failed one is logged as a
/// write failure and a persisted one is not logged.
pub proof fn lemma_write_leaves_registers(registers: Registers, outcome: WriteOutcome)
    ensures
        state_after(registers, Event::Wrote(outcome)) == registers,
        effect_of(registers, Event::Wrote(WriteOutcome::Failed)) == Effect::WriteFailure,
        effect_of(registers, Event::Wrote(WriteOutcome::Persisted)) == Effect::Silent,
{
}

/// A failed query changes no register and is logged under its reader's role.
pub proof fn lemma_failed_poll_leaves_registers(registers: Registers, role: Role)
    ensures
        state_after(registers, Event::Polled(role, ReadOutcome::Failed)) == registers,
        effect_of(registers, Event::Polled(role, ReadOutcome::Failed)) == Effect::ReadFailure(role),
{
}

/// A poll of an empty store changes no register and logs nothing; on fresh
/// registers both stay at the sentinel.
pub proof fn lemma_empty_poll_leaves_registers(registers: Registers, role: Role)
    ensures
        state_after(registers, Event::Polled(role, ReadOutcome::Empty)) == registers,
        effect_of(registers, Event::Polled(role, ReadOutcome::Empty)) == Effect::Silent,
{
}

/// A poll changes at most the register of its own role.
pub proof fn lemma_poll_leaves_other_register(
    registers: Registers,
    role: Role,
    outcome: ReadOutcome,
    other: Role,
)
    requires
        other != role,
    ensures
        state_after(registers, Event::Polled(role, outcome)).value(other) == registers.value(other),
        state_after(registers, Event::Polled(role, outcome)).value(role) == register_after(
            registers.value(role),
            outcome,
        ),
{
}

/// After a failed write or a failed query the monitor handles the next
/// event exactly as it would have without the failure: same registers
/// afterwards, same log line.
pub proof fn lemma_failure_does_not_disturb(registers: Registers, failure: Event, next: Event)
    requires
        is_failure(failure),
    ensures
        state_after(registers, failure) == registers,
        state_after(state_after(registers, failure), next) == state_after(registers, next),
        effect_of(state_after(registers, failure), next) == effect_of(registers, next),
{
}

/// Over any run, each register is what its own reader's polls made of it,
/// in their order. Writes, reports and the polls of the other reader have
/// no part in it.
pub proof fn lemma_register_follows_own_polls(start: Registers, events: Seq<Event>, role: Role)
    ensures
        state_after_all(start, events).value(role) == register_after_all(
            start.value(role),
            polls_of(events, role),
        ),
    decreases events.len(),
{
    if events.len() > 0 {
        let earlier = events.drop_last();
        lemma_register_follows_own_polls(start, earlier, role);
        match events.last() {
            Event::Polled(reader, outcome) => {
                if reader == role {
                    let polls = polls_of(earlier, role);
                    assert(polls.push(outcome).drop_last() == polls);
                }
            },
            _ => {},
        }
    }
}

} // verus!
