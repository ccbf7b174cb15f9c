//! PCAN backend errors and PCAN-Basic status codes.

use vstd::prelude::*;

use crate::pcan::ffi::{
    PCAN_ERROR_BUSHEAVY, PCAN_ERROR_BUSLIGHT, PCAN_ERROR_BUSOFF, PCAN_ERROR_BUSPASSIVE,
    PCAN_ERROR_HWINUSE, PCAN_ERROR_ILLOPERATION, PCAN_ERROR_ILLPARAMTYPE, PCAN_ERROR_ILLPARAMVAL,
    PCAN_ERROR_INITIALIZE, PCAN_ERROR_NODRIVER, PCAN_ERROR_OK, PCAN_ERROR_OVERRUN,
    PCAN_ERROR_QOVERRUN, PCAN_ERROR_QRCVEMPTY, PCAN_ERROR_QXMTFULL, PCAN_ERROR_XMTFULL,
};

verus! {

/// A raw PCAN-Basic status code.
#[derive(Debug, Clone, Copy, PartialEq, Eq, Structural)]
pub struct PcanStatus(pub u32);

/// What a PCAN-Basic status code means; empty for codes without a
/// description.
pub open spec fn pcan_status_text(code: u32) -> &'static str {
    if code == PCAN_ERROR_OK {
        "no error"
    } else if code == PCAN_ERROR_XMTFULL {
        "transmit buffer full"
    } else if code == PCAN_ERROR_OVERRUN {
        "receive buffer overrun"
    } else if code == PCAN_ERROR_BUSLIGHT {
        "bus light error"
    } else if code == PCAN_ERROR_BUSHEAVY {
        "bus heavy error"
    } else if code == PCAN_ERROR_BUSOFF {
        "bus off"
    } else if code == PCAN_ERROR_BUSPASSIVE {
        "bus passive"
    } else if code == PCAN_ERROR_QRCVEMPTY {
        "receive queue empty"
    } else if code == PCAN_ERROR_QOVERRUN {
        "receive queue overrun"
    } else if code == PCAN_ERROR_QXMTFULL {
        "transmit queue full"
    } else if code == PCAN_ERROR_INITIALIZE {
        "channel not initialized"
    } else if code == PCAN_ERROR_ILLOPERATION {
        "illegal operation"
    } else if code == PCAN_ERROR_NODRIVER {
        "driver not found"
    } else if code == PCAN_ERROR_HWINUSE {
        "hardware in use"
    } else if code == PCAN_ERROR_ILLPARAMTYPE {
        "invalid parameter type"
    } else if code == PCAN_ERROR_ILLPARAMVAL {
        "invalid parameter value"
    } else {
        ""
    }
}

impl PcanStatus {
    /// A description of the status code, empty when it has none.
    pub fn description(&self) -> (r: &'static str)
        ensures
            r == pcan_status_text(self.0),
    {
        match self.0 {
            PCAN_ERROR_OK => "no error",
            PCAN_ERROR_XMTFULL => "transmit buffer full",
            PCAN_ERROR_OVERRUN => "receive buffer overrun",
            PCAN_ERROR_BUSLIGHT => "bus light error",
            PCAN_ERROR_BUSHEAVY => "bus heavy error",
            PCAN_ERROR_BUSOFF => "bus off",
            PCAN_ERROR_BUSPASSIVE => "bus passive",
            PCAN_ERROR_QRCVEMPTY => "receive queue empty",
            PCAN_ERROR_QOVERRUN => "receive queue overrun",
            PCAN_ERROR_QXMTFULL => "transmit queue full",
            PCAN_ERROR_INITIALIZE => "channel not initialized",
            PCAN_ERROR_ILLOPERATION => "illegal operation",
            PCAN_ERROR_NODRIVER => "driver not found",
            PCAN_ERROR_HWINUSE => "hardware in use",
            PCAN_ERROR_ILLPARAMTYPE => "invalid parameter type",
            PCAN_ERROR_ILLPARAMVAL => "invalid parameter value",
            _ => "",
        }
    }
}

/// Errors returned by the PCAN backend.
#[derive(Debug)]
pub enum PcanError {
    /// The PCAN-Basic shared library could not be loaded.
    LibraryLoad(libloading::Error),
    /// A PCAN-Basic call returned a non-OK status.
    Pcan(PcanStatus),
    /// A frame could not be converted.
    InvalidFrame(String),
    /// The channel index is out of range (0..=15).
    InvalidChannel(u32),
    /// A bitrate (in Hz) does not evenly divide the 80 MHz PCAN clock.
    UnsupportedBitrate(u32),
    /// No timing satisfies the requested bitrate and sample point.
    UnsupportedTiming(String),
    /// A platform-specific error occurred.
    Platform(String),
}

/// Convert a raw PCAN-Basic status to a `Result`: only `PCAN_ERROR_OK`
/// is success.
pub fn check_status(status: u32) -> (r: Result<(), PcanError>)
    ensures
        r is Ok <==> status == PCAN_ERROR_OK,
        r matches Err(e) ==> e == PcanError::Pcan(PcanStatus(status)),
{
    if status == PCAN_ERROR_OK {
        Ok(())
    } else {
        Err(PcanError::Pcan(PcanStatus(status)))
    }
}

} // verus!
