//! Core logic of a medical-refrigerator monitor.
//!
//! Event streams (door open/close, mains power on/off) and periodic
//! temperature samples, each carrying a caller-supplied timestamp, are folded
//! into per-period statistical records and live alarm flags.  The library
//! performs no I/O and never reads a clock: every operation is a deterministic
//! function of the state, the input and the timestamp it is handed.

use vstd::prelude::*;

pub mod aggregator;
pub mod decimal;
pub mod door;
pub mod duration;
pub mod power_availability;
pub mod temperature_aggregator;
pub mod timestamp;

verus! {

/// Outcome of a processing request.
#[derive(Debug, PartialEq)]
pub enum Status {
    Success,
    Error,
}

/// Accepts any non-empty input; rejects an empty one.
pub fn process_data(input: &str) -> (r: Status)
    ensures
        r == (if input@.len() == 0 {
            Status::Error
        } else {
            Status::Success
        }),
{
    if input.is_empty() {
        Status::Error
    } else {
        Status::Success
    }
}

} // verus!

