//! Conversions between the portable frame types and PCAN-Basic's message
//! records, and the CAN FD DLC code.

use vstd::prelude::*;

use crate::frame::{is_fd_len, CanFdFrame, CanFrame, Frame};
use crate::id::{CanId, EXTENDED_MAX, STANDARD_MAX};
use crate::pcan::error::PcanError;
use crate::pcan::ffi::{
    TPCANMsg, TPCANMsgFD, PCAN_MESSAGE_BRS, PCAN_MESSAGE_ESI, PCAN_MESSAGE_EXTENDED,
    PCAN_MESSAGE_FD, PCAN_MESSAGE_RTR, PCAN_MESSAGE_STANDARD, PCAN_MESSAGE_STATUS,
};
use crate::text::{hex_upper_padded, push_hex_upper_padded, push_str};

verus! {

/// The raw id and message-type flag PCAN-Basic takes for an identifier.
pub open spec fn pcan_id_of(id: CanId) -> (u32, u8) {
    match id {
        CanId::Standard(v) => (v as u32, PCAN_MESSAGE_STANDARD),
        CanId::Extended(v) => (v, PCAN_MESSAGE_EXTENDED),
    }
}

/// The identifier a raw id and message type stand for, when in range.
pub open spec fn pcan_id_from(raw_id: u32, msg_type: u8) -> Option<CanId> {
    if msg_type & PCAN_MESSAGE_EXTENDED != 0 {
        if raw_id <= EXTENDED_MAX {
            Some(CanId::Extended(raw_id))
        } else {
            None
        }
    } else if raw_id <= STANDARD_MAX as u32 {
        Some(CanId::Standard(raw_id as u16))
    } else {
        None
    }
}

/// The message of an identifier that is out of range.
pub open spec fn pcan_id_message(msg_type: u8, raw_id: u32) -> Seq<char> {
    (if msg_type & PCAN_MESSAGE_EXTENDED != 0 {
        "invalid extended ID: 0x"@
    } else {
        "standard ID out of range: 0x"@
    }) + hex_upper_padded(raw_id as nat, 8)
}

/// Encode a `CanId` into `(raw_id, msg_type)`.
pub fn to_pcan_id(id: CanId) -> (r: (u32, u8))
    ensures
        r == pcan_id_of(id),
{
    match id {
        CanId::Standard(v) => (v as u32, PCAN_MESSAGE_STANDARD),
        CanId::Extended(v) => (v, PCAN_MESSAGE_EXTENDED),
    }
}

/// Decode a PCAN `(raw_id, msg_type)` into a `CanId`.
pub fn from_pcan_id(raw_id: u32, msg_type: u8) -> (r: Result<CanId, PcanError>)
    ensures
        match pcan_id_from(raw_id, msg_type) {
            Some(id) => r == Ok::<CanId, PcanError>(id),
            None => r matches Err(PcanError::InvalidFrame(m)) && m@ == pcan_id_message(
                msg_type,
                raw_id,
            ),
        },
{
    if msg_type & PCAN_MESSAGE_EXTENDED != 0 {
        match CanId::new_extended(raw_id) {
            Some(id) => Ok(id),
            None => {
                let mut m = String::new();
                push_str(&mut m, "invalid extended ID: 0x");
                push_hex_upper_padded(&mut m, raw_id as u64, 8);
                Err(PcanError::InvalidFrame(m))
            },
        }
    } else {
        if raw_id > 0x7FF {
            let mut m = String::new();
            push_str(&mut m, "standard ID out of range: 0x");
            push_hex_upper_padded(&mut m, raw_id as u64, 8);
            return Err(PcanError::InvalidFrame(m));
        }
        Ok(CanId::Standard(raw_id as u16))
    }
}

/// The encoding of a valid identifier decodes back to it.
pub proof fn lemma_pcan_id_roundtrip(id: CanId)
    requires
        id.valid(),
    ensures
        pcan_id_from(pcan_id_of(id).0, pcan_id_of(id).1) == Some(id),
{
    assert(PCAN_MESSAGE_STANDARD & PCAN_MESSAGE_EXTENDED == 0) by (bit_vector);
    assert(PCAN_MESSAGE_EXTENDED & PCAN_MESSAGE_EXTENDED != 0) by (bit_vector);
}

/// `data` followed by zero bytes up to `n` bytes.
pub open spec fn zero_padded(data: Seq<u8>, n: nat) -> Seq<u8> {
    data + Seq::new((n - data.len()) as nat, |i: int| 0u8)
}

/// Copy `data` into a zeroed buffer of `N` bytes.
fn padded_buffer<const N: usize>(data: &[u8]) -> (r: [u8; N])
    requires
        data@.len() <= N,
    ensures
        r@ == zero_padded(data@, N as nat),
{
    let mut buf = [0u8; N];
    let mut i: usize = 0;
    while i < data.len()
        invariant
            i <= data@.len() <= N,
            buf@.len() == N,
            forall|k: int| 0 <= k < i ==> buf@[k] == data@[k],
            forall|k: int| i <= k < N ==> buf@[k] == 0u8,
        decreases data@.len() - i,
    {
        buf.set(i, data[i]);
        i = i + 1;
    }
    assert(buf@ =~= zero_padded(data@, N as nat));
    buf
}

/// Convert a `CanFrame` to a `TPCANMsg`: the data zero-padded to 8 bytes.
pub fn to_pcan_msg(frame: &CanFrame) -> (r: TPCANMsg)
    ensures
        (r.id, r.msg_type) == pcan_id_of(frame.id_spec()),
        r.len == frame.data_spec().len(),
        r.data@ == zero_padded(frame.data_spec(), 8),
{
    let (id, msg_type) = to_pcan_id(frame.id());
    let len = frame.len();
    let data = padded_buffer::<8>(frame.data());
    TPCANMsg { id, msg_type, len: len as u8, data }
}

/// Whether a classic read returns no frame for a message: remote and
/// status messages are skipped.
pub open spec fn classic_skipped(msg_type: u8) -> bool {
    msg_type & PCAN_MESSAGE_RTR != 0 || msg_type & PCAN_MESSAGE_STATUS != 0
}

/// `min(n, cap)`.
pub open spec fn clamp_len(n: u8, cap: u8) -> int {
    if n < cap {
        n as int
    } else {
        cap as int
    }
}

/// Convert a `TPCANMsg` to a `CanFrame`.
///
/// Returns `Ok(None)` for remote and status messages; the length is
/// clamped to the 8-byte buffer.
pub fn from_pcan_msg(msg: &TPCANMsg) -> (r: Result<Option<CanFrame>, PcanError>)
    ensures
        classic_skipped(msg.msg_type) ==> r matches Ok(None),
        !classic_skipped(msg.msg_type) ==> match pcan_id_from(msg.id, msg.msg_type) {
            None => r matches Err(PcanError::InvalidFrame(m)) && m@ == pcan_id_message(
                msg.msg_type,
                msg.id,
            ),
            Some(id) => r matches Ok(Some(f)) && f.id_spec() == id && f.data_spec()
                == msg.data@.take(clamp_len(msg.len, 8)),
        },
{
    if msg.msg_type & PCAN_MESSAGE_RTR != 0 || msg.msg_type & PCAN_MESSAGE_STATUS != 0 {
        return Ok(None);
    }
    let id = match from_pcan_id(msg.id, msg.msg_type) {
        Ok(id) => id,
        Err(e) => return Err(e),
    };
    let len: usize = if msg.len < 8 {
        msg.len as usize
    } else {
        8
    };
    let all = msg.data.as_slice();
    match CanFrame::new(id, &all[0..len]) {
        Some(frame) => {
            assert(all@.subrange(0, len as int) == msg.data@.take(len as int));
            Ok(Some(frame))
        },
        None => Ok(None),
    }
}

/// The CAN FD DLC code (0-15) of a byte count; counts between the valid
/// lengths round up to the next one, and counts above 64 give 15.
pub open spec fn dlc_code(bytes: u8) -> u8 {
    if bytes <= 8 {
        bytes
    } else if bytes <= 12 {
        9
    } else if bytes <= 16 {
        10
    } else if bytes <= 20 {
        11
    } else if bytes <= 24 {
        12
    } else if bytes <= 32 {
        13
    } else if bytes <= 48 {
        14
    } else {
        15
    }
}

/// The byte count of a CAN FD DLC code; codes above 15 give 64.
pub open spec fn dlc_bytes(code: u8) -> u8 {
    if code <= 8 {
        code
    } else if code == 9 {
        12
    } else if code == 10 {
        16
    } else if code == 11 {
        20
    } else if code == 12 {
        24
    } else if code == 13 {
        32
    } else if code == 14 {
        48
    } else {
        64
    }
}

/// Convert a byte count to a CAN FD DLC code (0-15), rounding up.
pub fn dlc_bytes_to_code(bytes: u8) -> (r: u8)
    ensures
        r == dlc_code(bytes),
{
    match bytes {
        0..=8 => bytes,
        9..=12 => 9,
        13..=16 => 10,
        17..=20 => 11,
        21..=24 => 12,
        25..=32 => 13,
        33..=48 => 14,
        _ => 15,
    }
}

/// Convert a CAN FD DLC code (0-15) to a byte count; larger codes are
/// clamped to 64.
pub fn dlc_code_to_bytes(dlc: u8) -> (r: u8)
    ensures
        r == dlc_bytes(dlc),
{
    match dlc {
        0..=8 => dlc,
        9 => 12,
        10 => 16,
        11 => 20,
        12 => 24,
        13 => 32,
        14 => 48,
        _ => 64,
    }
}

/// The DLC code round-trips every valid CAN FD length and every code,
/// every byte count up to 64 is rounded up to a valid length at least as
/// long, and every code stands for a valid length.
pub proof fn lemma_dlc_roundtrip(bytes: u8, code: u8)
    ensures
        is_fd_len(bytes as int) ==> dlc_bytes(dlc_code(bytes)) == bytes,
        code <= 15 ==> dlc_code(dlc_bytes(code)) == code,
        bytes <= 64 ==> bytes <= dlc_bytes(dlc_code(bytes)),
        is_fd_len(dlc_bytes(code) as int),
{
}

/// The CAN FD DLC table (ISO 11898-1): codes 0 to 8 stand for that many
/// bytes, codes 9 to 15 for 12, 16, 20, 24, 32, 48 and 64 bytes. Longer
/// codes stand for longer frames, and the code of a byte count up to 64 is
/// the least code long enough for it, so codes grow with the byte count.
pub proof fn lemma_dlc_table(bytes: u8, bytes2: u8, code: u8, code2: u8)
    ensures
        code <= 8 ==> dlc_bytes(code) == code,
        dlc_bytes(9) == 12,
        dlc_bytes(10) == 16,
        dlc_bytes(11) == 20,
        dlc_bytes(12) == 24,
        dlc_bytes(13) == 32,
        dlc_bytes(14) == 48,
        dlc_bytes(15) == 64,
        code < code2 <= 15 ==> dlc_bytes(code) < dlc_bytes(code2),
        bytes <= 64 ==> dlc_code(bytes) <= 15 && bytes <= dlc_bytes(dlc_code(bytes)),
        bytes <= 64 && code < dlc_code(bytes) ==> dlc_bytes(code) < bytes,
        bytes <= bytes2 ==> dlc_code(bytes) <= dlc_code(bytes2),
{
}

/// The message-type flags of an FD message with identifier flag `id_flag`.
pub open spec fn fd_msg_type(id_flag: u8, brs: bool, esi: bool) -> u8 {
    id_flag | PCAN_MESSAGE_FD | (if brs {
        PCAN_MESSAGE_BRS
    } else {
        0u8
    }) | (if esi {
        PCAN_MESSAGE_ESI
    } else {
        0u8
    })
}

/// Convert a `CanFdFrame` to a `TPCANMsgFD`: FD flag set, BRS and ESI as
/// the frame has them, the DLC code of its length, the data zero-padded to
/// 64 bytes.
pub fn to_pcan_msg_fd(frame: &CanFdFrame) -> (r: TPCANMsgFD)
    ensures
        r.id == pcan_id_of(frame.id_spec()).0,
        r.msg_type == fd_msg_type(pcan_id_of(frame.id_spec()).1, frame.brs_spec(), frame.esi_spec()),
        r.dlc == dlc_code(frame.data_spec().len() as u8),
        r.data@ == zero_padded(frame.data_spec(), 64),
{
    let (id, ty) = to_pcan_id(frame.id());
    let brs = frame.brs();
    let esi = frame.esi();
    let b: u8 = if brs {
        PCAN_MESSAGE_BRS
    } else {
        0
    };
    let e: u8 = if esi {
        PCAN_MESSAGE_ESI
    } else {
        0
    };
    let msg_type = ty | PCAN_MESSAGE_FD | b | e;
    let len = frame.len();
    let data = padded_buffer::<64>(frame.data());
    TPCANMsgFD { id, msg_type, dlc: dlc_bytes_to_code(len as u8), data }
}

/// Convert a `TPCANMsgFD` to a `Frame`.
///
/// Returns `Ok(None)` for status messages. A message with the FD flag
/// gives an FD frame of the DLC code's length; one without gives a classic
/// frame of at most 8 bytes.
pub fn from_pcan_msg_fd(msg: &TPCANMsgFD) -> (r: Result<Option<Frame>, PcanError>)
    ensures
        msg.msg_type & PCAN_MESSAGE_STATUS != 0 ==> r matches Ok(None),
        msg.msg_type & PCAN_MESSAGE_STATUS == 0 ==> match pcan_id_from(msg.id, msg.msg_type) {
            None => r matches Err(PcanError::InvalidFrame(m)) && m@ == pcan_id_message(
                msg.msg_type,
                msg.id,
            ),
            Some(id) => if msg.msg_type & PCAN_MESSAGE_FD != 0 {
                r matches Ok(Some(Frame::Fd(f))) && f.id_spec() == id && f.data_spec()
                    == msg.data@.take(dlc_bytes(msg.dlc) as int) && f.brs_spec() == (msg.msg_type
                    & PCAN_MESSAGE_BRS != 0) && f.esi_spec() == (msg.msg_type & PCAN_MESSAGE_ESI
                    != 0)
            } else {
                r matches Ok(Some(Frame::Can(f))) && f.id_spec() == id && f.data_spec()
                    == msg.data@.take(clamp_len(msg.dlc, 8))
            },
        },
{
    if msg.msg_type & PCAN_MESSAGE_STATUS != 0 {
        return Ok(None);
    }
    let id = match from_pcan_id(msg.id, msg.msg_type) {
        Ok(id) => id,
        Err(e) => return Err(e),
    };
    let all = msg.data.as_slice();
    if msg.msg_type & PCAN_MESSAGE_FD != 0 {
        let len = dlc_code_to_bytes(msg.dlc) as usize;
        let brs = msg.msg_type & PCAN_MESSAGE_BRS != 0;
        let esi = msg.msg_type & PCAN_MESSAGE_ESI != 0;
        proof {
            lemma_dlc_roundtrip(0, msg.dlc);
        }
        match CanFdFrame::new(id, &all[0..len], brs, esi) {
            Some(frame) => {
                assert(all@.subrange(0, len as int) == msg.data@.take(len as int));
                Ok(Some(Frame::Fd(frame)))
            },
            None => Ok(None),
        }
    } else {
        let len: usize = if msg.dlc < 8 {
            msg.dlc as usize
        } else {
            8
        };
        match CanFrame::new(id, &all[0..len]) {
            Some(frame) => {
                assert(all@.subrange(0, len as int) == msg.data@.take(len as int));
                Ok(Some(Frame::Can(frame)))
            },
            None => Ok(None),
        }
    }
}

/// Decoding what `to_pcan_msg` encodes gives the frame back: the message
/// is not skipped, its identifier decodes to the frame's, and the first
/// `len` bytes are the payload.
pub proof fn lemma_classic_msg_roundtrip(id: CanId, data: Seq<u8>)
    requires
        id.valid(),
        data.len() <= 8,
    ensures
        !classic_skipped(pcan_id_of(id).1),
        pcan_id_from(pcan_id_of(id).0, pcan_id_of(id).1) == Some(id),
        zero_padded(data, 8).take(clamp_len(data.len() as u8, 8)) == data,
{
    lemma_pcan_id_roundtrip(id);
    let ty = pcan_id_of(id).1;
    assert(ty == 0 || ty == 2);
    assert((ty == 0u8 || ty == 2u8) ==> (ty & 1u8 == 0u8 && ty & 0x80u8 == 0u8)) by (bit_vector);
    assert(zero_padded(data, 8).take(clamp_len(data.len() as u8, 8)) =~= data);
}

/// Decoding what `to_pcan_msg_fd` encodes gives the frame back: the
/// message is an FD message with the frame's identifier, flags, and
/// payload.
pub proof fn lemma_fd_msg_roundtrip(id: CanId, data: Seq<u8>, brs: bool, esi: bool)
    requires
        id.valid(),
        is_fd_len(data.len() as int),
    ensures
        ({
            let (raw, flag) = pcan_id_of(id);
            let ty = fd_msg_type(flag, brs, esi);
            &&& ty & PCAN_MESSAGE_STATUS == 0
            &&& ty & PCAN_MESSAGE_FD != 0
            &&& pcan_id_from(raw, ty) == Some(id)
            &&& (ty & PCAN_MESSAGE_BRS != 0) == brs
            &&& (ty & PCAN_MESSAGE_ESI != 0) == esi
            &&& zero_padded(data, 64).take(dlc_bytes(dlc_code(data.len() as u8)) as int) == data
        }),
{
    lemma_pcan_id_roundtrip(id);
    let (raw, flag) = pcan_id_of(id);
    let b: u8 = if brs {
        8u8
    } else {
        0u8
    };
    let e: u8 = if esi {
        16u8
    } else {
        0u8
    };
    let ty = fd_msg_type(flag, brs, esi);
    assert(ty == flag | 4u8 | b | e);
    assert((flag == 0u8 || flag == 2u8) && (b == 0u8 || b == 8u8) && (e == 0u8 || e == 16u8) ==> {
        let t = flag | 4u8 | b | e;
        &&& t & 0x80u8 == 0u8
        &&& t & 4u8 != 0u8
        &&& (t & 2u8 != 0u8) == (flag & 2u8 != 0u8)
        &&& (t & 8u8 != 0u8) == (b != 0u8)
        &&& (t & 16u8 != 0u8) == (e != 0u8)
    }) by (bit_vector);
    lemma_dlc_roundtrip(data.len() as u8, 0);
    assert(zero_padded(data, 64).take(dlc_bytes(dlc_code(data.len() as u8)) as int) =~= data);
}

} // verus!
