//! SocketCAN backend errors.

use vstd::prelude::*;

verus! {

/// `std::io::Error`, the error of a socket operation.
#[verifier::external_type_specification]
#[verifier::external_body]
pub struct ExIoError(std::io::Error);

/// Errors from the SocketCAN backend.
#[derive(Debug)]
pub enum SocketCanError {
    /// An I/O error from the underlying socket.
    Io(std::io::Error),
    /// Failed to construct a frame (invalid ID, data length, etc.).
    InvalidFrame(String),
    /// The interface index or name is invalid.
    InvalidInterface(String),
}

} // verus!
