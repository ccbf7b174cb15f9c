//! What the KVASER channel decides on CANlib's answers: the bus state of
//! a status word, the error counters, the flags of an FD write, and which
//! read frames a classic receive delivers.

use vstd::prelude::*;

use crate::bus::{clamp_counter, saturate_counter, BusState, ErrorCounters};
use crate::frame::{CanFdFrame, CanFrame, Frame};
use crate::id::CanId;
use crate::kvaser::convert::{canlib_id_from, canlib_id_of, lemma_canlib_id_roundtrip, to_canlib_id};
use crate::kvaser::ffi::{
    CAN_MSG_BRS, CAN_MSG_ERROR_FRAME, CAN_MSG_ESI, CAN_MSG_FDF, CAN_MSG_RTR, CAN_STAT_BUS_OFF, CAN_STAT_ERROR_PASSIVE,
    CAN_STAT_ERROR_WARNING,
};

verus! {

/// The bus state a `canReadStatus` flag word reports.
pub open spec fn bus_state_of_flags(flags: u64) -> BusState {
    if flags & CAN_STAT_BUS_OFF != 0 {
        BusState::BusOff
    } else if flags & (CAN_STAT_ERROR_PASSIVE | CAN_STAT_ERROR_WARNING) != 0 {
        BusState::ErrorPassive
    } else {
        BusState::ErrorActive
    }
}

/// Decode a `canReadStatus` flag word: bus-off wins; error-passive or
/// error-warning is error-passive; otherwise error-active.
pub fn bus_state_from_flags(flags: u64) -> (r: BusState)
    ensures
        r == bus_state_of_flags(flags),
{
    if flags & CAN_STAT_BUS_OFF != 0 {
        BusState::BusOff
    } else if flags & (CAN_STAT_ERROR_PASSIVE | CAN_STAT_ERROR_WARNING) != 0 {
        BusState::ErrorPassive
    } else {
        BusState::ErrorActive
    }
}

/// The error counters of a `canReadErrorCounters` answer, saturated to 255.
pub fn counters_from_raw(tx_err: u32, rx_err: u32) -> (r: ErrorCounters)
    ensures
        r.transmit == saturate_counter(tx_err),
        r.receive == saturate_counter(rx_err),
{
    ErrorCounters { transmit: clamp_counter(tx_err), receive: clamp_counter(rx_err) }
}

/// The message flags of an FD frame's `canWrite`: the identifier's flag,
/// FDF, and BRS and ESI as the frame has them.
pub open spec fn fd_write_flags_of(id_flag: u32, brs: bool, esi: bool) -> u32 {
    id_flag | CAN_MSG_FDF | (if brs {
        CAN_MSG_BRS
    } else {
        0u32
    }) | (if esi {
        CAN_MSG_ESI
    } else {
        0u32
    })
}

/// The raw id and message flags of an FD frame's `canWrite`.
pub fn fd_write_id(frame: &CanFdFrame) -> (r: (u32, u32))
    ensures
        r.0 == canlib_id_of(frame.id_spec()).0,
        r.1 == fd_write_flags_of(canlib_id_of(frame.id_spec()).1, frame.brs_spec(), frame.esi_spec()),
{
    let (id, flag) = to_canlib_id(frame.id());
    let b: u32 = if frame.brs() {
        CAN_MSG_BRS
    } else {
        0
    };
    let e: u32 = if frame.esi() {
        CAN_MSG_ESI
    } else {
        0
    };
    (id, flag | CAN_MSG_FDF | b | e)
}

/// What a classic receive does with the result of one read.
#[derive(Debug)]
pub enum ClassicRead {
    /// Deliver this frame.
    Deliver(CanFrame),
    /// An FD frame was read: skip it and read again.
    Skip,
    /// The queue is empty: wait for the receive event.
    Empty,
}

/// Decide on one read of a classic channel: classic frames are delivered,
/// FD frames skipped.
pub fn classic_read_step(read: Option<Frame>) -> (r: ClassicRead)
    ensures
        match read {
            None => r is Empty,
            Some(Frame::Fd(_)) => r is Skip,
            Some(Frame::Can(f)) => r matches ClassicRead::Deliver(g) && g == f,
        },
{
    match read {
        None => ClassicRead::Empty,
        Some(Frame::Fd(_)) => ClassicRead::Skip,
        Some(Frame::Can(f)) => ClassicRead::Deliver(f),
    }
}

/// What `canWrite` is given for a frame reads back as that frame: the
/// flags of a classic write mark neither a remote, an error nor an FD
/// frame, those of an FD write mark an FD frame with the frame's BRS and
/// ESI, and in both the identifier decodes back to the frame's.
pub proof fn lemma_canlib_write_flags_read_back(id: CanId, brs: bool, esi: bool)
    requires
        id.valid(),
    ensures
        ({
            let (raw, flag) = canlib_id_of(id);
            let fd = fd_write_flags_of(flag, brs, esi);
            &&& flag & CAN_MSG_RTR == 0 && flag & CAN_MSG_ERROR_FRAME == 0 && flag & CAN_MSG_FDF == 0
            &&& canlib_id_from(raw, flag) == Some(id)
            &&& fd & CAN_MSG_RTR == 0 && fd & CAN_MSG_ERROR_FRAME == 0 && fd & CAN_MSG_FDF != 0
            &&& (fd & CAN_MSG_BRS != 0) == brs && (fd & CAN_MSG_ESI != 0) == esi
            &&& canlib_id_from(raw, fd) == Some(id)
        }),
{
    lemma_canlib_id_roundtrip(id);
    let (raw, flag) = canlib_id_of(id);
    let b: u32 = if brs {
        0x020000u32
    } else {
        0u32
    };
    let e: u32 = if esi {
        0x040000u32
    } else {
        0u32
    };
    let fd = fd_write_flags_of(flag, brs, esi);
    assert(fd == flag | 0x010000u32 | b | e);
    assert((flag == 2u32 || flag == 4u32) && (b == 0u32 || b == 0x020000u32) && (e == 0u32 || e
        == 0x040000u32) ==> {
        let t = flag | 0x010000u32 | b | e;
        &&& flag & 1u32 == 0u32 && flag & 0x20u32 == 0u32 && flag & 0x010000u32 == 0u32
        &&& t & 1u32 == 0u32 && t & 0x20u32 == 0u32 && t & 0x010000u32 != 0u32
        &&& (t & 0x020000u32 != 0u32) == (b != 0u32)
        &&& (t & 0x040000u32 != 0u32) == (e != 0u32)
        &&& (t & 4u32 != 0u32) == (flag & 4u32 != 0u32)
    }) by (bit_vector);
}

} // verus!
