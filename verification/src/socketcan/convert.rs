//! Conversions between the portable types and what the `socketcan` crate
//! reads and writes, held as plain values.
//!
//! The application moves a received `socketcan` frame's fields into a
//! [`ScFrame`]; the decisions on it (which kinds are delivered, what is
//! refused) are made here. Filters go the other way as the raw
//! `(can_id, can_mask)` pair of a kernel `can_filter`.

use vstd::prelude::*;

use crate::filter::Filter;
use crate::frame::{is_fd_len, CanFdFrame, CanFrame, Frame};
use crate::id::CanId;
use crate::socketcan::error::SocketCanError;

verus! {

/// The kernel's extended-frame flag in a raw CAN id.
pub const CAN_EFF_FLAG: u32 = 0x8000_0000;

/// The kind of a frame read from a SocketCAN socket.
#[derive(Debug, Clone, Copy, PartialEq, Eq, Structural)]
pub enum ScFrameKind {
    /// A classic data frame.
    Normal,
    /// A remote transmission request.
    Remote,
    /// An error frame.
    Error,
    /// A CAN FD frame.
    Fd,
}

/// A frame read from a SocketCAN socket, as plain values.
#[derive(Debug)]
pub struct ScFrame {
    pub kind: ScFrameKind,
    pub id: CanId,
    pub data: Vec<u8>,
    pub brs: bool,
    pub esi: bool,
}

/// The raw `(can_id, can_mask)` of the kernel filter for `f`: an extended
/// filter sets the extended-frame flag in both, so it matches extended
/// frames only.
pub open spec fn filter_parts(f: Filter) -> (u32, u32) {
    match f.id {
        CanId::Standard(v) => (v as u32, f.mask),
        CanId::Extended(v) => (v | CAN_EFF_FLAG, f.mask | CAN_EFF_FLAG),
    }
}

/// Convert a filter to the raw `(can_id, can_mask)` of a kernel filter.
pub fn to_socketcan_filter(filter: &Filter) -> (r: (u32, u32))
    ensures
        r == filter_parts(*filter),
{
    match filter.id {
        CanId::Standard(v) => (v as u32, filter.mask),
        CanId::Extended(v) => (v | CAN_EFF_FLAG, filter.mask | CAN_EFF_FLAG),
    }
}

/// Convert a classic data frame's identifier and payload.
pub fn from_socketcan_data_frame(id: CanId, data: &[u8]) -> (r: Result<CanFrame, SocketCanError>)
    ensures
        data@.len() <= 8 ==> (r matches Ok(f) && f.id_spec() == id && f.data_spec() == data@),
        data@.len() > 8 ==> (r matches Err(SocketCanError::InvalidFrame(m)) && m@
            == "failed to construct can-hal CanFrame"@),
{
    match CanFrame::new(id, data) {
        Some(f) => Ok(f),
        None => Err(SocketCanError::InvalidFrame(String::from_str("failed to construct can-hal CanFrame"))),
    }
}

/// Convert an FD frame's identifier, payload and flags.
pub fn from_socketcan_fd_frame(id: CanId, data: &[u8], brs: bool, esi: bool) -> (r: Result<
    CanFdFrame,
    SocketCanError,
>)
    ensures
        is_fd_len(data@.len() as int) ==> (r matches Ok(f) && f.id_spec() == id && f.data_spec()
            == data@ && f.brs_spec() == brs && f.esi_spec() == esi),
        !is_fd_len(data@.len() as int) ==> (r matches Err(SocketCanError::InvalidFrame(m)) && m@
            == "failed to construct can-hal CanFdFrame"@),
{
    match CanFdFrame::new(id, data, brs, esi) {
        Some(f) => Ok(f),
        None => Err(SocketCanError::InvalidFrame(String::from_str("failed to construct can-hal CanFdFrame"))),
    }
}

/// Convert any frame read from the socket. Remote and error frames are
/// refused.
pub fn from_socketcan_any_frame(frame: &ScFrame) -> (r: Result<Frame, SocketCanError>)
    ensures
        frame.kind == ScFrameKind::Remote ==> (r matches Err(SocketCanError::InvalidFrame(m)) && m@
            == "remote frames are not supported"@),
        frame.kind == ScFrameKind::Error ==> (r matches Err(SocketCanError::InvalidFrame(m)) && m@
            == "error frames are not supported"@),
        frame.kind == ScFrameKind::Normal && frame.data@.len() <= 8 ==> (r matches Ok(Frame::Can(f))
            && f.id_spec() == frame.id && f.data_spec() == frame.data@),
        frame.kind == ScFrameKind::Normal && frame.data@.len() > 8 ==> (r matches Err(
            SocketCanError::InvalidFrame(_),
        )),
        frame.kind == ScFrameKind::Fd && is_fd_len(frame.data@.len() as int) ==> (r matches Ok(
            Frame::Fd(f),
        ) && f.id_spec() == frame.id && f.data_spec() == frame.data@ && f.brs_spec() == frame.brs
            && f.esi_spec() == frame.esi),
        frame.kind == ScFrameKind::Fd && !is_fd_len(frame.data@.len() as int) ==> (r matches Err(
            SocketCanError::InvalidFrame(_),
        )),
{
    match frame.kind {
        ScFrameKind::Normal => match from_socketcan_data_frame(frame.id, frame.data.as_slice()) {
            Ok(f) => Ok(Frame::Can(f)),
            Err(e) => Err(e),
        },
        ScFrameKind::Fd => match from_socketcan_fd_frame(
            frame.id,
            frame.data.as_slice(),
            frame.brs,
            frame.esi,
        ) {
            Ok(f) => Ok(Frame::Fd(f)),
            Err(e) => Err(e),
        },
        ScFrameKind::Remote => Err(SocketCanError::InvalidFrame(String::from_str("remote frames are not supported"))),
        ScFrameKind::Error => Err(SocketCanError::InvalidFrame(String::from_str("error frames are not supported"))),
    }
}

/// What a classic receive makes of a frame read from the socket: a
/// classic data frame is converted; FD, remote and error frames are
/// skipped (`None`), since the caller wants classic frames only.
pub fn classic_from_socketcan(frame: &ScFrame) -> (r: Option<Result<CanFrame, SocketCanError>>)
    ensures
        frame.kind != ScFrameKind::Normal ==> r is None,
        frame.kind == ScFrameKind::Normal && frame.data@.len() <= 8 ==> (r matches Some(Ok(f))
            && f.id_spec() == frame.id && f.data_spec() == frame.data@),
        frame.kind == ScFrameKind::Normal && frame.data@.len() > 8 ==> (r matches Some(Err(e)) && e
            matches SocketCanError::InvalidFrame(_)),
{
    match frame.kind {
        ScFrameKind::Normal => Some(from_socketcan_data_frame(frame.id, frame.data.as_slice())),
        _ => None,
    }
}

/// What an FD receive makes of a frame read from the socket: the frame,
/// or `None` for one that does not convert (remote and error frames are
/// skipped).
pub fn any_from_socketcan(frame: &ScFrame) -> (r: Option<Frame>)
    ensures
        (frame.kind == ScFrameKind::Remote || frame.kind == ScFrameKind::Error) ==> r is None,
        frame.kind == ScFrameKind::Normal ==> (r is Some <==> frame.data@.len() <= 8),
        frame.kind == ScFrameKind::Fd ==> (r is Some <==> is_fd_len(frame.data@.len() as int)),
        r matches Some(f) ==> f.id_spec() == frame.id && f.data_spec() == frame.data@,
        r matches Some(Frame::Fd(f)) ==> frame.kind == ScFrameKind::Fd && f.brs_spec() == frame.brs
            && f.esi_spec() == frame.esi,
        r matches Some(Frame::Can(_)) ==> frame.kind == ScFrameKind::Normal,
{
    match from_socketcan_any_frame(frame) {
        Ok(f) => Some(f),
        Err(_) => None,
    }
}

} // verus!
