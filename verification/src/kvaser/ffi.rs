//! CANlib constants (from canlib.h and canstat.h) that the logic uses.

use vstd::prelude::*;

verus! {

/// Success.
pub const CAN_OK: i32 = 0;

/// No message in the receive queue.
pub const CAN_ERR_NOMSG: i32 = -2;

/// The function is not supported by the driver.
pub const CAN_ERR_NOT_SUPPORTED: i32 = -19;

/// `canOpenChannel` flag: open in CAN FD mode.
pub const CAN_OPEN_CAN_FD: i32 = 0x0400;

/// Message flag: remote request.
pub const CAN_MSG_RTR: u32 = 0x0001;

/// Message flag: standard (11-bit) identifier.
pub const CAN_MSG_STD: u32 = 0x0002;

/// Message flag: extended (29-bit) identifier.
pub const CAN_MSG_EXT: u32 = 0x0004;

/// Message flag: error frame.
pub const CAN_MSG_ERROR_FRAME: u32 = 0x0020;

/// Message flag: CAN FD frame.
pub const CAN_MSG_FDF: u32 = 0x010000;

/// Message flag: bit rate switch.
pub const CAN_MSG_BRS: u32 = 0x020000;

/// Message flag: error state indicator.
pub const CAN_MSG_ESI: u32 = 0x040000;

/// `canReadStatus` flag: error passive.
pub const CAN_STAT_ERROR_PASSIVE: u64 = 0x0000_0001;

/// `canReadStatus` flag: bus off.
pub const CAN_STAT_BUS_OFF: u64 = 0x0000_0002;

/// `canReadStatus` flag: error warning.
pub const CAN_STAT_ERROR_WARNING: u64 = 0x0000_0004;

/// `canAccept` flag: standard-frame code.
pub const CAN_FILTER_SET_CODE_STD: u32 = 3;

/// `canAccept` flag: standard-frame mask.
pub const CAN_FILTER_SET_MASK_STD: u32 = 4;

/// `canAccept` flag: extended-frame code.
pub const CAN_FILTER_SET_CODE_EXT: u32 = 5;

/// `canAccept` flag: extended-frame mask.
pub const CAN_FILTER_SET_MASK_EXT: u32 = 6;

/// `canIoCtl` function: get the receive event handle.
pub const CAN_IOCTL_GET_EVENTHANDLE: u32 = 6;

/// Bus timing in time quanta, as `canSetBusParamsFdTq` takes it.
#[derive(Debug, Clone, Copy, PartialEq, Eq, Structural)]
pub struct KvBusParamsTq {
    pub tq: i32,
    pub phase1: i32,
    pub phase2: i32,
    pub sjw: i32,
    pub prop: i32,
    pub prescaler: i32,
}

} // verus!
