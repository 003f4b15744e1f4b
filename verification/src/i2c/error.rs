//! Error types of the two-wire bus engine.

use vstd::prelude::*;

verus! {

/// Which phase of a transfer went unacknowledged.
#[derive(Clone, Copy, Debug, PartialEq, Eq, Structural)]
pub enum NoAcknowledgeSource {
    /// The address phase was not acknowledged.
    Address,
    /// A data byte was not acknowledged.
    Data,
    /// The unacknowledged phase is not known.
    Unknown,
}

/// Two-wire bus error kinds.
#[derive(Clone, Copy, Debug, PartialEq, Eq, Structural)]
pub enum Error {
    /// Bus error.
    Bus,
    /// The arbitration was lost, e.g. electrical problems with the clock
    /// signal.
    ArbitrationLoss,
    /// No acknowledgement received, carrying the phase that went
    /// unacknowledged.
    NoAcknowledge(NoAcknowledgeSource),
    /// The receive buffer was overrun.
    Overrun,
    /// A different error occurred, such as a poll timeout.
    Other,
}

} // verus!
