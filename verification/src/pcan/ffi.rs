//! PCAN-Basic constants and message records (from PCANBasic.h) that the
//! logic uses.

use vstd::prelude::*;

verus! {

/// First USB channel handle.
pub const PCAN_USBBUS1: u16 = 0x51;

/// First PCI channel handle.
pub const PCAN_PCIBUS1: u16 = 0x41;

/// First LAN channel handle.
pub const PCAN_LANBUS1: u16 = 0x801;

/// The handle of channel `index` (0-based) on bus type `bus_type`
/// (0 = USB, 1 = PCI, 2 = LAN), if both are in range.
pub open spec fn handle_of(bus_type: u8, index: u16) -> Option<u16> {
    if index > 15 {
        None
    } else if bus_type == 0 {
        Some((PCAN_USBBUS1 + index) as u16)
    } else if bus_type == 1 {
        Some((PCAN_PCIBUS1 + index) as u16)
    } else if bus_type == 2 {
        Some((PCAN_LANBUS1 + index) as u16)
    } else {
        None
    }
}

/// Map a (bus_type, 0-based index) pair to a PCAN handle value.
///
/// `bus_type`: 0 = USB, 1 = PCI, 2 = LAN. Returns `None` if the index is
/// out of range (it must be 0..=15) or the bus type is unknown.
pub fn pcan_handle(bus_type: u8, index: u16) -> (r: Option<u16>)
    ensures
        r == handle_of(bus_type, index),
{
    if index > 15 {
        return None;
    }
    match bus_type {
        0 => Some(PCAN_USBBUS1 + index),
        1 => Some(PCAN_PCIBUS1 + index),
        2 => Some(PCAN_LANBUS1 + index),
        _ => None,
    }
}

pub const PCAN_BAUD_1M: u16 = 0x0014;
pub const PCAN_BAUD_800K: u16 = 0x0016;
pub const PCAN_BAUD_500K: u16 = 0x001C;
pub const PCAN_BAUD_250K: u16 = 0x011C;
pub const PCAN_BAUD_125K: u16 = 0x031C;
pub const PCAN_BAUD_100K: u16 = 0x432F;
pub const PCAN_BAUD_50K: u16 = 0x472F;
pub const PCAN_BAUD_20K: u16 = 0x532F;
pub const PCAN_BAUD_10K: u16 = 0x672F;
pub const PCAN_BAUD_5K: u16 = 0x7F7F;

/// The `PCAN_BAUD_*` constant of a standard bitrate in Hz.
pub open spec fn baud_of(hz: u32) -> Option<u16> {
    if hz == 1_000_000 {
        Some(PCAN_BAUD_1M)
    } else if hz == 800_000 {
        Some(PCAN_BAUD_800K)
    } else if hz == 500_000 {
        Some(PCAN_BAUD_500K)
    } else if hz == 250_000 {
        Some(PCAN_BAUD_250K)
    } else if hz == 125_000 {
        Some(PCAN_BAUD_125K)
    } else if hz == 100_000 {
        Some(PCAN_BAUD_100K)
    } else if hz == 50_000 {
        Some(PCAN_BAUD_50K)
    } else if hz == 20_000 {
        Some(PCAN_BAUD_20K)
    } else if hz == 10_000 {
        Some(PCAN_BAUD_10K)
    } else if hz == 5_000 {
        Some(PCAN_BAUD_5K)
    } else {
        None
    }
}

/// The bitrate a `PCAN_BAUD_*` value selects. The value holds the SJA1000
/// bus-timing registers: BTR0 in the high byte (prescaler BRP in its low
/// six bits) and BTR1 in the low byte (TSEG1 in bits 0-3, TSEG2 in bits
/// 4-6), each field one less than its count. At the 16 MHz controller
/// clock a bit lasts `2 * (BRP + 1) * (1 + (TSEG1 + 1) + (TSEG2 + 1))`
/// clock cycles.
pub open spec fn btr_bitrate(c: u16) -> int {
    let brp = (c as int / 256) % 64;
    let tseg1 = c as int % 16;
    let tseg2 = (c as int / 16) % 8;
    8_000_000int / ((brp + 1) * (3 + tseg1 + tseg2))
}

/// The bitrate of a `PCAN_BAUD_*` value from its decoded register fields.
proof fn lemma_btr_fields(c: u16, brp: int, tseg1: int, tseg2: int)
    requires
        (c as int / 256) % 64 == brp,
        c as int % 16 == tseg1,
        (c as int / 16) % 8 == tseg2,
    ensures
        btr_bitrate(c) == 8_000_000int / ((brp + 1) * (3 + tseg1 + tseg2)),
{
}

/// Every standard bitrate's `PCAN_BAUD_*` constant selects exactly that
/// bitrate, so no two bitrates share a constant.
pub proof fn lemma_baud_constants_select_their_rate(hz: u32, hz2: u32)
    ensures
        baud_of(hz) matches Some(c) ==> btr_bitrate(c) == hz,
        baud_of(hz) is Some && hz != hz2 ==> baud_of(hz) != baud_of(hz2),
{
    lemma_btr_fields(PCAN_BAUD_1M, 0, 4, 1);
    assert(8_000_000int / 8 == 1000000);
    lemma_btr_fields(PCAN_BAUD_800K, 0, 6, 1);
    assert(8_000_000int / 10 == 800000);
    lemma_btr_fields(PCAN_BAUD_500K, 0, 12, 1);
    assert(8_000_000int / 16 == 500000);
    lemma_btr_fields(PCAN_BAUD_250K, 1, 12, 1);
    assert(8_000_000int / 32 == 250000);
    lemma_btr_fields(PCAN_BAUD_125K, 3, 12, 1);
    assert(8_000_000int / 64 == 125000);
    lemma_btr_fields(PCAN_BAUD_100K, 3, 15, 2);
    assert(8_000_000int / 80 == 100000);
    lemma_btr_fields(PCAN_BAUD_50K, 7, 15, 2);
    assert(8_000_000int / 160 == 50000);
    lemma_btr_fields(PCAN_BAUD_20K, 19, 15, 2);
    assert(8_000_000int / 400 == 20000);
    lemma_btr_fields(PCAN_BAUD_10K, 39, 15, 2);
    assert(8_000_000int / 800 == 10000);
    lemma_btr_fields(PCAN_BAUD_5K, 63, 15, 7);
    assert(8_000_000int / 1600 == 5000);
}

/// Map a standard bitrate in Hz to a `PCAN_BAUD_*` constant; `None` for
/// unsupported bitrates.
pub fn bitrate_to_pcan(hz: u32) -> (r: Option<u16>)
    ensures
        r == baud_of(hz),
{
    match hz {
        1_000_000 => Some(PCAN_BAUD_1M),
        800_000 => Some(PCAN_BAUD_800K),
        500_000 => Some(PCAN_BAUD_500K),
        250_000 => Some(PCAN_BAUD_250K),
        125_000 => Some(PCAN_BAUD_125K),
        100_000 => Some(PCAN_BAUD_100K),
        50_000 => Some(PCAN_BAUD_50K),
        20_000 => Some(PCAN_BAUD_20K),
        10_000 => Some(PCAN_BAUD_10K),
        5_000 => Some(PCAN_BAUD_5K),
        _ => None,
    }
}

pub const PCAN_MESSAGE_STANDARD: u8 = 0x00;
pub const PCAN_MESSAGE_RTR: u8 = 0x01;
pub const PCAN_MESSAGE_EXTENDED: u8 = 0x02;
pub const PCAN_MESSAGE_FD: u8 = 0x04;
pub const PCAN_MESSAGE_BRS: u8 = 0x08;
pub const PCAN_MESSAGE_ESI: u8 = 0x10;
pub const PCAN_MESSAGE_STATUS: u8 = 0x80;

pub const PCAN_ERROR_OK: u32 = 0x00000;
pub const PCAN_ERROR_XMTFULL: u32 = 0x00001;
pub const PCAN_ERROR_OVERRUN: u32 = 0x00002;
pub const PCAN_ERROR_BUSLIGHT: u32 = 0x00004;
pub const PCAN_ERROR_BUSHEAVY: u32 = 0x00008;
pub const PCAN_ERROR_BUSOFF: u32 = 0x00010;
pub const PCAN_ERROR_QRCVEMPTY: u32 = 0x00020;
pub const PCAN_ERROR_QOVERRUN: u32 = 0x00040;
pub const PCAN_ERROR_QXMTFULL: u32 = 0x00080;
pub const PCAN_ERROR_REGTEST: u32 = 0x00100;
pub const PCAN_ERROR_NODRIVER: u32 = 0x00200;
pub const PCAN_ERROR_HWINUSE: u32 = 0x00400;
pub const PCAN_ERROR_NETINUSE: u32 = 0x00800;
pub const PCAN_ERROR_ILLHW: u32 = 0x01400;
pub const PCAN_ERROR_ILLNET: u32 = 0x01800;
pub const PCAN_ERROR_ILLCLIENT: u32 = 0x01C00;
pub const PCAN_ERROR_RESOURCE: u32 = 0x02000;
pub const PCAN_ERROR_ILLPARAMTYPE: u32 = 0x04000;
pub const PCAN_ERROR_ILLPARAMVAL: u32 = 0x08000;
pub const PCAN_ERROR_UNKNOWN: u32 = 0x10000;
pub const PCAN_ERROR_ILLDATA: u32 = 0x20000;
pub const PCAN_ERROR_BUSPASSIVE: u32 = 0x40000;
pub const PCAN_ERROR_CAUTION: u32 = 0x2000000;
pub const PCAN_ERROR_INITIALIZE: u32 = 0x4000000;
pub const PCAN_ERROR_ILLOPERATION: u32 = 0x8000000;

/// Filter mode: standard frames.
pub const PCAN_MODE_STANDARD: u8 = 0x01;

/// Filter mode: extended frames.
pub const PCAN_MODE_EXTENDED: u8 = 0x02;

pub const PCAN_RECEIVE_EVENT: u8 = 0x03;
pub const PCAN_RECEIVE_STATUS: u8 = 0x04;
pub const PCAN_BUSOFF_AUTORESET: u8 = 0x07;
pub const PCAN_LISTEN_ONLY: u8 = 0x08;
pub const PCAN_CONTROLLER_NUMBER: u8 = 0x1A;
pub const PCAN_CHANNEL_CONDITION: u8 = 0x09;

/// A classic CAN message as `CAN_Read` and `CAN_Write` take it.
#[derive(Debug, Clone, Copy)]
pub struct TPCANMsg {
    pub id: u32,
    pub msg_type: u8,
    pub len: u8,
    pub data: [u8; 8],
}

/// A CAN FD message as `CAN_ReadFD` and `CAN_WriteFD` take it.
#[derive(Debug, Clone, Copy)]
pub struct TPCANMsgFD {
    pub id: u32,
    pub msg_type: u8,
    pub dlc: u8,
    pub data: [u8; 64],
}

/// The receive timestamp of a classic message.
#[derive(Debug, Clone, Copy)]
pub struct TPCANTimestamp {
    pub millis: u32,
    pub millis_overflow: u16,
    pub micros: u16,
}

} // verus!
