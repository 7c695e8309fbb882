//! One tick of the reporter: two register values and the lag between them.

use vstd::prelude::*;
use crate::marker::{lag_between, lag_millis};

verus! {

/// Milliseconds between two reports.
pub const REPORT_PERIOD_MS: u64 = 250;

/// What one report line carries.
#[derive(Clone, Copy, Debug, PartialEq, Eq, Structural)]
pub struct LagReport {
    /// The primary register as the reporter read it.
    pub primary_value: u64,
    /// The secondary register as the reporter read it.
    pub secondary_value: u64,
    /// The absolute difference of the two, in milliseconds.
    pub lag_ms: u64,
}

/// The report for a snapshot of the two registers.
pub open spec fn report_of(primary: u64, secondary: u64) -> LagReport {
    LagReport {
        primary_value: primary,
        secondary_value: secondary,
        lag_ms: lag_between(primary, secondary) as u64,
    }
}

/// Builds the report for two register values read one after the other. The
/// lag is their absolute difference, so it is zero while both registers
/// still hold the sentinel and never negative.
pub fn lag_report(primary: u64, secondary: u64) -> (report: LagReport)
    ensures
        report == report_of(primary, secondary),
        report.lag_ms == lag_between(primary, secondary),
{
    LagReport { primary_value: primary, secondary_value: secondary, lag_ms: lag_millis(primary, secondary) }
}

} // verus!
