//! Hardware-agnostic CAN bus types with verified protocol logic.
//!
//! The crate holds the portable frame and identifier types, the ISO-TP
//! (ISO 15765-2) segmentation and reassembly logic, and the pure parts of
//! the SocketCAN, PCAN-Basic and KVASER CANlib backends: timing solvers,
//! filter merging, identifier and frame conversions, and status decoding.

pub mod id;
pub mod frame;
pub mod time;
pub mod timing;
pub mod bus;
pub mod channel;
pub mod filter;
pub mod isotp;
pub mod kvaser;
pub mod text;
pub mod bittiming;
pub mod pcan;
pub mod socketcan;
