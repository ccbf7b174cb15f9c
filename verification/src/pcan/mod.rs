//! The PEAK PCAN-Basic backend's logic: handle and bitrate mapping, frame
//! and identifier conversions, range filters, status decoding and the FD
//! timing solver.

pub mod ffi;
pub mod error;
pub mod convert;
pub mod filter;
pub mod timing;
pub mod mode;
pub mod driver;
