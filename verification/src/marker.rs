//! Markers, the values registers hold, and the lag between two registers.

use vstd::prelude::*;

verus! {

/// What a register holds before its reader has fetched a first row.
pub const SENTINEL: u64 = 0;

/// The register value that stands for a marker: the marker itself when it is
/// not negative, otherwise its 64-bit two's-complement bit pattern.
pub open spec fn register_image(marker: i64) -> u64 {
    if marker >= 0 {
        marker as u64
    } else {
        (marker + 0x1_0000_0000_0000_0000) as u64
    }
}

/// Turns a marker read from a store into the value its register takes.
pub fn register_value(marker: i64) -> (value: u64)
    ensures
        value == register_image(marker),
{
    let value: u64 = #[verifier::truncate] (marker as u64);
    assert(value == register_image(marker)) by (bit_vector)
        requires
            value == marker as u64,
    ;
    value
}

/// Register values keep the order of the markers they stand for, except
/// across zero: a negative marker stands above every marker that is not
/// negative.
pub proof fn lemma_image_order(earlier: i64, later: i64)
    requires
        earlier <= later,
    ensures
        register_image(earlier) <= register_image(later) <==> !(earlier < 0 <= later),
        earlier >= 0 ==> register_image(earlier) == earlier,
{
}

/// The absolute difference of two register values.
pub open spec fn lag_between(primary: u64, secondary: u64) -> int {
    if primary >= secondary {
        primary - secondary
    } else {
        secondary - primary
    }
}

/// The lag does not depend on which register is ahead, and it is zero
/// exactly when the two registers agree.
pub proof fn lemma_lag_symmetric(primary: u64, secondary: u64)
    ensures
        lag_between(primary, secondary) == lag_between(secondary, primary),
        lag_between(primary, secondary) >= 0,
        lag_between(primary, secondary) == 0 <==> primary == secondary,
{
}

/// The lag, in milliseconds, between two register values.
pub fn lag_millis(primary: u64, secondary: u64) -> (lag: u64)
    ensures
        lag == lag_between(primary, secondary),
{
    if primary >= secondary {
        primary - secondary
    } else {
        secondary - primary
    }
}

} // verus!
