//! The Linux SocketCAN backend's logic: interface selection, errors, and
//! the conversions between the portable types and the `socketcan` crate's.

pub mod error;
pub mod driver;
pub mod convert;
