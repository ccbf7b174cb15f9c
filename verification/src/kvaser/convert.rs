//! Conversions between the portable types and CANlib's raw identifiers and
//! receive buffers.

use vstd::prelude::*;

use crate::frame::{is_fd_len, CanFdFrame, CanFrame, Frame};
use crate::id::{CanId, EXTENDED_MAX, STANDARD_MAX};
use crate::kvaser::error::KvaserError;
use crate::kvaser::ffi::{
    CAN_MSG_BRS, CAN_MSG_ERROR_FRAME, CAN_MSG_ESI, CAN_MSG_EXT, CAN_MSG_FDF, CAN_MSG_RTR,
    CAN_MSG_STD,
};
use crate::text::{decimal, hex_lower, push_decimal, push_hex, push_str};

verus! {

/// The raw id and message flag CANlib takes for an identifier.
pub open spec fn canlib_id_of(id: CanId) -> (u32, u32) {
    match id {
        CanId::Standard(v) => (v as u32, CAN_MSG_STD),
        CanId::Extended(v) => (v, CAN_MSG_EXT),
    }
}

/// The identifier a raw CANlib id and its message flags stand for, when
/// it is in range.
pub open spec fn canlib_id_from(raw_id: u32, flags: u32) -> Option<CanId> {
    if flags & CAN_MSG_EXT != 0 {
        if raw_id <= EXTENDED_MAX {
            Some(CanId::Extended(raw_id))
        } else {
            None
        }
    } else if raw_id <= STANDARD_MAX as u32 {
        Some(CanId::Standard(raw_id as u16))
    } else {
        None
    }
}

/// Convert a `CanId` to a raw CANlib id and message flag.
pub fn to_canlib_id(id: CanId) -> (r: (u32, u32))
    ensures
        r == canlib_id_of(id),
{
    match id {
        CanId::Standard(v) => (v as u32, CAN_MSG_STD),
        CanId::Extended(v) => (v, CAN_MSG_EXT),
    }
}

/// The message of an out-of-range identifier error.
pub open spec fn id_range_message(extended: bool, raw_id: u32) -> Seq<char> {
    (if extended {
        "extended ID out of range: 0x"@
    } else {
        "standard ID out of range: 0x"@
    }) + hex_lower(raw_id as nat)
}

/// Reconstruct a `CanId` from a raw CANlib id and message flags.
pub fn from_canlib_id(raw_id: u32, flags: u32) -> (r: Result<CanId, KvaserError>)
    ensures
        match canlib_id_from(raw_id, flags) {
            Some(id) => r == Ok::<CanId, KvaserError>(id),
            None => r matches Err(KvaserError::InvalidFrame(msg)) && msg@ == id_range_message(
                flags & CAN_MSG_EXT != 0,
                raw_id,
            ),
        },
{
    if flags & CAN_MSG_EXT != 0 {
        match CanId::new_extended(raw_id) {
            Some(id) => Ok(id),
            None => {
                let mut msg = String::new();
                push_str(&mut msg, "extended ID out of range: 0x");
                push_hex(&mut msg, raw_id as u64);
                Err(KvaserError::InvalidFrame(msg))
            },
        }
    } else {
        if raw_id > 0x7FF {
            let mut msg = String::new();
            push_str(&mut msg, "standard ID out of range: 0x");
            push_hex(&mut msg, raw_id as u64);
            return Err(KvaserError::InvalidFrame(msg));
        }
        Ok(CanId::Standard(raw_id as u16))
    }
}

/// The raw id and flags of a valid identifier convert back to it.
pub proof fn lemma_canlib_id_roundtrip(id: CanId)
    requires
        id.valid(),
    ensures
        canlib_id_from(canlib_id_of(id).0, canlib_id_of(id).1) == Some(id),
{
    assert(CAN_MSG_STD & CAN_MSG_EXT == 0) by (bit_vector);
    assert(CAN_MSG_EXT & CAN_MSG_EXT != 0) by (bit_vector);
}

/// Convert a raw CANlib receive buffer into a `Frame`.
///
/// Returns `Ok(None)` for remote and error frames, which are not
/// represented in the portable frame model. The byte count is clamped to 64
/// (FD) or 8 (classic); an FD byte count that is not a valid FD length is
/// an error.
pub fn from_canlib_frame(raw_id: u32, data: &[u8; 64], dlc: u32, flags: u32) -> (r: Result<
    Option<Frame>,
    KvaserError,
>)
    ensures
        (flags & CAN_MSG_RTR != 0 || flags & CAN_MSG_ERROR_FRAME != 0) ==> r matches Ok(None),
        !(flags & CAN_MSG_RTR != 0 || flags & CAN_MSG_ERROR_FRAME != 0) ==> {
            match canlib_id_from(raw_id, flags) {
                None => r matches Err(KvaserError::InvalidFrame(_)),
                Some(id) => if flags & CAN_MSG_FDF != 0 {
                    let len = if dlc < 64 {
                        dlc as int
                    } else {
                        64
                    };
                    if is_fd_len(len) {
                        r matches Ok(Some(Frame::Fd(f))) && f.id_spec() == id && f.data_spec()
                            == data@.take(len) && f.brs_spec() == (flags & CAN_MSG_BRS != 0)
                            && f.esi_spec() == (flags & CAN_MSG_ESI != 0)
                    } else {
                        r matches Err(KvaserError::InvalidFrame(msg)) && msg@ == "invalid FD DLC: "@
                            + decimal(dlc as nat)
                    }
                } else {
                    let len = if dlc < 8 {
                        dlc as int
                    } else {
                        8
                    };
                    r matches Ok(Some(Frame::Can(f))) && f.id_spec() == id && f.data_spec()
                        == data@.take(len)
                },
            }
        },
{
    if flags & CAN_MSG_RTR != 0 || flags & CAN_MSG_ERROR_FRAME != 0 {
        return Ok(None);
    }
    let id = match from_canlib_id(raw_id, flags) {
        Ok(id) => id,
        Err(e) => return Err(e),
    };
    let all = data.as_slice();
    if flags & CAN_MSG_FDF != 0 {
        let len: usize = if dlc < 64 {
            dlc as usize
        } else {
            64
        };
        let brs = flags & CAN_MSG_BRS != 0;
        let esi = flags & CAN_MSG_ESI != 0;
        match CanFdFrame::new(id, &all[0..len], brs, esi) {
            Some(frame) => {
                assert(all@.subrange(0, len as int) == data@.take(len as int));
                Ok(Some(Frame::Fd(frame)))
            },
            None => {
                let mut msg = String::new();
                push_str(&mut msg, "invalid FD DLC: ");
                push_decimal(&mut msg, dlc as u64);
                Err(KvaserError::InvalidFrame(msg))
            },
        }
    } else {
        let len: usize = if dlc < 8 {
            dlc as usize
        } else {
            8
        };
        match CanFrame::new(id, &all[0..len]) {
            Some(frame) => {
                assert(all@.subrange(0, len as int) == data@.take(len as int));
                Ok(Some(Frame::Can(frame)))
            },
            None => {
                let mut msg = String::new();
                push_str(&mut msg, "invalid classic CAN DLC: ");
                push_decimal(&mut msg, dlc as u64);
                Err(KvaserError::InvalidFrame(msg))
            },
        }
    }
}

} // verus!
