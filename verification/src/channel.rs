//! Channel traits: transmit and receive of classic and FD frames.
//!
//! Backends implement these; portable code (such as the ISO-TP layer) is
//! written against them. Nothing is promised of what an implementation
//! hands back: it depends on the bus.

use vstd::prelude::*;

use crate::frame::{CanFdFrame, CanFrame, Frame, Timestamped};
use crate::time::Duration;

verus! {

/// Transmit of classic CAN frames.
pub trait Transmit {
    type Error;

    /// Send a classic CAN frame.
    fn transmit(&mut self, frame: &CanFrame) -> Result<(), Self::Error>;
}

/// Receive of classic CAN frames.
pub trait Receive {
    type Error;
    type Timestamp;

    /// Block until a classic CAN frame arrives.
    fn receive(&mut self) -> Result<Timestamped<CanFrame, Self::Timestamp>, Self::Error>;

    /// Return a frame if one is already queued.
    fn try_receive(&mut self) -> Result<Option<Timestamped<CanFrame, Self::Timestamp>>, Self::Error>;

    /// Wait at most `timeout` for a frame; `Ok(None)` when none arrived.
    fn receive_timeout(&mut self, timeout: Duration) -> Result<
        Option<Timestamped<CanFrame, Self::Timestamp>>,
        Self::Error,
    >;
}

/// Transmit of CAN FD frames.
pub trait TransmitFd {
    type Error;

    /// Send a CAN FD frame.
    fn transmit_fd(&mut self, frame: &CanFdFrame) -> Result<(), Self::Error>;
}

/// Receive of any frame (classic or FD) on an FD-capable bus.
pub trait ReceiveFd {
    type Error;
    type Timestamp;

    /// Block until a frame arrives.
    fn receive_fd(&mut self) -> Result<Timestamped<Frame, Self::Timestamp>, Self::Error>;

    /// Return a frame if one is already queued.
    fn try_receive_fd(&mut self) -> Result<Option<Timestamped<Frame, Self::Timestamp>>, Self::Error>;

    /// Wait at most `timeout` for a frame; `Ok(None)` when none arrived.
    fn receive_fd_timeout(&mut self, timeout: Duration) -> Result<
        Option<Timestamped<Frame, Self::Timestamp>>,
        Self::Error,
    >;
}

} // verus!
