//! ISO-TP errors.

use vstd::prelude::*;

verus! {

/// Errors that can occur during ISO-TP communication.
#[derive(Debug)]
pub enum IsoTpError<E> {
    /// Error from the underlying CAN channel.
    CanError(E),
    /// A timeout expired (N_Bs or N_Cr).
    Timeout,
    /// The receiver sent a Flow Control frame with the Overflow flag.
    BufferOverflow,
    /// A received frame could not be parsed as a valid ISO-TP PDU.
    InvalidFrame,
    /// Consecutive Frame sequence number mismatch.
    SequenceError { expected: u8, got: u8 },
    /// Payload exceeds the maximum allowed size: `u32::MAX` bytes (the
    /// 32-bit length of a long First Frame).
    PayloadTooLarge,
    /// Too many consecutive FC(Wait) frames received (exceeds `max_fc_wait`).
    WaitLimitExceeded,
}

} // verus!
