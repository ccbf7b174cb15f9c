//! The KVASER CANlib backend's logic: timing solver, filter merging,
//! identifier and frame conversions, and status decoding.

pub mod filter;
pub mod error;
pub mod ffi;
pub mod convert;
pub mod timing;
pub mod mode;
pub mod driver;
pub mod status;
