//! The two latest-observed registers, one per endpoint, as a plain value.
//!
//! In a running monitor each register is a single word that its reader
//! overwrites and the reporter reads, without locks. Every such run is some
//! order of whole loads and stores, so a pair of integers that is changed one
//! step at a time describes it.

use vstd::prelude::*;
use crate::marker::SENTINEL;
use crate::reader::{action_for, reader_action, register_after, ReadOutcome, ReaderAction};
use crate::reporter::{lag_report, report_of, LagReport};

verus! {

/// Which endpoint a reader polls, and so which register it owns.
#[derive(Clone, Copy, Debug, PartialEq, Eq, Structural)]
pub enum Role {
    Primary,
    Secondary,
}

impl Role {
    /// The name a role goes by in log lines.
    pub open spec fn label(self) -> Seq<char> {
        match self {
            Role::Primary => "primary"@,
            Role::Secondary => "secondary"@,
        }
    }

    /// The name a role goes by in log lines.
    pub fn name(&self) -> (name: &'static str)
        ensures
            name@ == self.label(),
    {
        match self {
            Role::Primary => "primary",
            Role::Secondary => "secondary",
        }
    }
}

/// The latest marker value seen at each endpoint.
#[derive(Clone, Copy, Debug, PartialEq, Eq, Structural)]
pub struct Registers {
    pub primary: u64,
    pub secondary: u64,
}

impl Registers {
    /// The value of the register that `role` owns.
    pub open spec fn value(self, role: Role) -> u64 {
        match role {
            Role::Primary => self.primary,
            Role::Secondary => self.secondary,
        }
    }

    /// These registers with the one of `role` overwritten.
    pub open spec fn with(self, role: Role, value: u64) -> Registers {
        match role {
            Role::Primary => Registers { primary: value, secondary: self.secondary },
            Role::Secondary => Registers { primary: self.primary, secondary: value },
        }
    }

    /// These registers once the reader of `role` has handled `outcome`.
    pub open spec fn after_poll(self, role: Role, outcome: ReadOutcome) -> Registers {
        self.with(role, register_after(self.value(role), outcome))
    }

    /// Both registers at the sentinel, as they are when the process starts.
    pub fn new() -> (registers: Registers)
        ensures
            registers.primary == SENTINEL,
            registers.secondary == SENTINEL,
    {
        Registers { primary: SENTINEL, secondary: SENTINEL }
    }

    /// Reads the register of `role`.
    pub fn load(&self, role: Role) -> (value: u64)
        ensures
            value == self.value(role),
    {
        match role {
            Role::Primary => self.primary,
            Role::Secondary => self.secondary,
        }
    }

    /// Overwrites the register of `role` and leaves the other one alone.
    pub fn store(&mut self, role: Role, value: u64)
        ensures
            *final(self) == old(self).with(role, value),
            final(self).value(role) == value,
            forall|other: Role| other != role ==> final(self).value(other) == old(self).value(other),
    {
        match role {
            Role::Primary => {
                self.primary = value;
            },
            Role::Secondary => {
                self.secondary = value;
            },
        }
    }

    /// One tick of the reader of `role`: a row overwrites that reader's
    /// register with the row's marker; an empty store or a failed query
    /// changes nothing. The other register is never touched.
    pub fn observe(&mut self, role: Role, outcome: &ReadOutcome) -> (action: ReaderAction)
        ensures
            action == action_for(*outcome),
            *final(self) == old(self).after_poll(role, *outcome),
            !(outcome is Row) ==> *final(self) == *old(self),
            forall|other: Role| other != role ==> final(self).value(other) == old(self).value(other),
    {
        let action = reader_action(outcome);
        match action {
            ReaderAction::Store(value) => {
                self.store(role, value);
            },
            ReaderAction::Keep => {},
            ReaderAction::ReportFailure => {},
        }
        action
    }

    /// One tick of the reporter: both registers and their absolute
    /// difference. The registers stay as they are.
    pub fn snapshot(&self) -> (report: LagReport)
        ensures
            report == report_of(self.primary, self.secondary),
    {
        lag_report(self.primary, self.secondary)
    }
}

} // verus!
