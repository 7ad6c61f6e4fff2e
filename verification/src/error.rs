//! The ways one synchronisation run can fail.

use vstd::prelude::*;

verus! {

/// Why a run ended without setting the clock.
#[derive(Clone, Copy, Debug, PartialEq, Eq, Structural)]
pub enum SyncError {
    /// No port of the keyboard's kind could be opened.
    DeviceNotFound,
    /// The command could not be written in full.
    WriteFailure,
    /// No reply arrived in time, or reading it failed.
    ReadFailure,
    /// The host's clock gave no time that can be sent.
    ClockFailure,
}

} // verus!
