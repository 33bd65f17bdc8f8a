//! The closed set of errors the initialization sequence can report.

use vstd::prelude::*;

verus! {

/// Every error is fatal to the `init` call that produced it; registers
/// already written before the failing step keep their values.
#[derive(Clone, Copy, PartialEq, Eq, Structural, Debug)]
pub enum CANFDError {
    /// The requested baud rate exceeds the mode's hardware ceiling.
    BaudrateTooHigh,
    /// No achievable prescaler at the given clock and quantum count.
    PrescalarTooHigh,
    /// The computed transceiver-delay offset exceeds the 4-bit field range.
    TransceiverDelayCompensationTooHigh,
    /// The hardware reported a transceiver-delay-compensation failure after
    /// the FD registers were programmed.
    TransceiverDelayCompensationFail,
}

} // verus!
