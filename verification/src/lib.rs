//! Discovery and command sequencing for a BLE-controlled treadmill.
//!
//! The library holds the decision logic only: classifying advertisements by
//! their service UUIDs, deciding when a scan window has expired, validating
//! device address strings, building checksummed command frames, and driving
//! the fixed connect/write/wait/write/disconnect sequence as a state machine.
//! The surrounding program performs the radio I/O and feeds results back in
//! as plain values.

pub mod address;
pub mod discovery;
pub mod frame;
pub mod sequencer;

use vstd::prelude::*;

verus! {

/// Failures the library itself can report.
///
/// Radio and connection faults are observed by the caller that performs the
/// I/O; this enum covers only what the decision logic decides: a scan that
/// ended without a match, and an address string that does not parse.
#[derive(Clone, Copy, Debug, PartialEq, Eq, Structural)]
pub enum Error {
    NotFound,
    InvalidAddress,
}

} // verus!
