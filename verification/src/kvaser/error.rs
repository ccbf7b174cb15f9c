//! KVASER backend errors and CANlib status codes.

use vstd::prelude::*;

use crate::kvaser::ffi::CAN_OK;

verus! {

/// `libloading::Error`, the error of loading the CANlib shared library.
#[verifier::external_type_specification]
#[verifier::external_body]
pub struct ExLibloadingError(libloading::Error);

/// A raw CANlib status code.
#[derive(Debug, Clone, Copy, PartialEq, Eq, Structural)]
pub struct KvaserStatus(pub i32);

/// What a CANlib status code means.
pub open spec fn kvaser_status_text(code: i32) -> &'static str {
    if code == -1 {
        "error in parameter"
    } else if code == -2 {
        "no messages available"
    } else if code == -3 {
        "specified hardware not found"
    } else if code == -4 {
        "out of memory"
    } else if code == -5 {
        "no channels available"
    } else if code == -6 {
        "interrupted by signal"
    } else if code == -7 {
        "timeout"
    } else if code == -8 {
        "not properly initialized"
    } else if code == -9 {
        "out of handles"
    } else if code == -10 {
        "handle is invalid"
    } else if code == -11 {
        "error in ini-file"
    } else if code == -12 {
        "CAN driver type not supported"
    } else if code == -13 {
        "transmit buffer overflow"
    } else if code == -15 {
        "hardware error detected"
    } else if code == -16 {
        "cannot load driver DLL"
    } else if code == -17 {
        "wrong DLL version"
    } else if code == -18 {
        "error initializing DLL"
    } else if code == -19 {
        "function not supported"
    } else {
        "unknown error"
    }
}

impl KvaserStatus {
    /// A description of the status code.
    pub fn description(&self) -> (r: &'static str)
        ensures
            r == kvaser_status_text(self.0),
    {
        match self.0 {
            -1 => "error in parameter",
            -2 => "no messages available",
            -3 => "specified hardware not found",
            -4 => "out of memory",
            -5 => "no channels available",
            -6 => "interrupted by signal",
            -7 => "timeout",
            -8 => "not properly initialized",
            -9 => "out of handles",
            -10 => "handle is invalid",
            -11 => "error in ini-file",
            -12 => "CAN driver type not supported",
            -13 => "transmit buffer overflow",
            -15 => "hardware error detected",
            -16 => "cannot load driver DLL",
            -17 => "wrong DLL version",
            -18 => "error initializing DLL",
            -19 => "function not supported",
            _ => "unknown error",
        }
    }
}

/// Errors returned by the KVASER CANlib backend.
#[derive(Debug)]
#[non_exhaustive]
pub enum KvaserError {
    /// The CANlib shared library could not be loaded.
    LibraryLoad(libloading::Error),
    /// A CANlib API call returned a non-OK status code.
    Canlib(KvaserStatus),
    /// A frame could not be constructed from the received data.
    InvalidFrame(String),
    /// A bitrate (in Hz) does not evenly divide the 80 MHz CANlib clock,
    /// so no exact prescaler exists.
    UnsupportedBitrate(u32),
    /// No timing parameters satisfy the requested bitrate + sample point
    /// at the 80 MHz CANlib clock within the segment-length constraints.
    UnsupportedTiming(String),
    /// A platform-specific error occurred.
    Platform(String),
}

/// Convert a raw CANlib return value to a `Result`.
///
/// Any return value less than zero indicates failure; positive values may
/// be success with informational codes.
pub fn check_status(status: i32) -> (r: Result<(), KvaserError>)
    ensures
        r is Ok <==> status >= CAN_OK,
        r matches Err(e) ==> e == KvaserError::Canlib(KvaserStatus(status)),
{
    if status >= CAN_OK {
        Ok(())
    } else {
        Err(KvaserError::Canlib(KvaserStatus(status)))
    }
}

} // verus!
