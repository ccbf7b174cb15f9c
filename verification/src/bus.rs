//! Bus health: controller error state and error counters.

use vstd::prelude::*;

verus! {

/// The error state of a CAN bus controller.
#[derive(Debug, Clone, Copy, PartialEq, Eq, Structural)]
pub enum BusState {
    /// Normal operation. Error counters are below 128.
    ErrorActive,
    /// Error counters have reached the warning threshold (128–255).
    ErrorPassive,
    /// The controller has gone off-bus due to excessive errors.
    BusOff,
}

/// Transmit and receive error counters from the CAN controller.
#[derive(Debug, Clone, Copy, PartialEq, Eq, Structural)]
pub struct ErrorCounters {
    pub transmit: u8,
    pub receive: u8,
}

/// A raw controller counter saturated into the `u8` that `ErrorCounters` holds.
pub open spec fn saturate_counter(raw: u32) -> u8 {
    if raw > 255 { 255u8 } else { raw as u8 }
}

/// Saturate a raw controller counter to 255.
pub fn clamp_counter(raw: u32) -> (r: u8)
    ensures
        r == saturate_counter(raw),
{
    if raw > 255 {
        255
    } else {
        raw as u8
    }
}

/// Query the health and error state of a CAN bus controller.
///
/// Not all backends support this; it is an optional trait.
pub trait BusStatus {
    type Error;

    /// Returns the current bus state of the controller.
    fn bus_state(&self) -> Result<BusState, Self::Error>;

    /// Returns the current transmit and receive error counters.
    fn error_counters(&self) -> Result<ErrorCounters, Self::Error>;
}

} // verus!
