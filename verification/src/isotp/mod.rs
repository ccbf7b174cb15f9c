//! ISO-TP (ISO 15765-2) transport layer: segmentation and reassembly of
//! payloads larger than a single CAN frame, using the Single Frame / First
//! Frame / Consecutive Frame / Flow Control protocol.

pub mod frame;
pub mod segment;
pub mod session;
pub mod reassembler;
pub mod config;
pub mod error;
pub mod channel;
