//! Classic CAN and CAN FD frames.

use vstd::prelude::*;

use crate::id::CanId;
use crate::time::Instant;

verus! {

/// Maximum payload of a classic CAN 2.0 frame.
pub const CAN_MAX_LEN: usize = 8;

/// Maximum payload of a CAN FD frame.
pub const CANFD_MAX_LEN: usize = 64;

/// The data lengths a CAN FD frame can carry: 0..=8, 12, 16, 20, 24, 32, 48, 64.
pub open spec fn is_fd_len(n: int) -> bool {
    ||| 0 <= n <= 8
    ||| n == 12
    ||| n == 16
    ||| n == 20
    ||| n == 24
    ||| n == 32
    ||| n == 48
    ||| n == 64
}

/// A classic CAN 2.0 frame (up to 8 data bytes).
#[derive(Debug, PartialEq, Eq)]
pub struct CanFrame {
    id: CanId,
    data: Vec<u8>,
}

impl CanFrame {
    #[verifier::type_invariant]
    spec fn inv(self) -> bool {
        self.data@.len() <= CAN_MAX_LEN
    }

    /// The frame's identifier.
    pub closed spec fn id_spec(self) -> CanId {
        self.id
    }

    /// The frame's payload.
    pub closed spec fn data_spec(self) -> Seq<u8> {
        self.data@
    }

    /// Create a new classic CAN frame.
    ///
    /// Returns `None` if `data` is longer than 8 bytes.
    pub fn new(id: CanId, data: &[u8]) -> (r: Option<CanFrame>)
        ensures
            r is Some <==> data@.len() <= CAN_MAX_LEN,
            r matches Some(f) ==> f.id_spec() == id && f.data_spec() == data@,
    {
        if data.len() > CAN_MAX_LEN {
            return None;
        }
        let mut buf: Vec<u8> = Vec::new();
        buf.extend_from_slice(data);
        Some(CanFrame { id, data: buf })
    }

    /// Returns the frame's CAN identifier.
    pub fn id(&self) -> (r: CanId)
        ensures
            r == self.id_spec(),
    {
        self.id
    }

    /// Returns the data length in bytes (0--8).
    pub fn len(&self) -> (r: usize)
        ensures
            r == self.data_spec().len(),
            r <= CAN_MAX_LEN,
    {
        proof {
            use_type_invariant(self);
        }
        self.data.len()
    }

    /// Returns `true` if the frame carries zero data bytes.
    pub fn is_empty(&self) -> (r: bool)
        ensures
            r == (self.data_spec().len() == 0),
    {
        self.data.len() == 0
    }

    /// Returns the data payload.
    pub fn data(&self) -> (r: &[u8])
        ensures
            r@ == self.data_spec(),
    {
        self.data.as_slice()
    }
}

impl Clone for CanFrame {
    fn clone(&self) -> (r: Self)
        ensures
            r.id_spec() == self.id_spec(),
            r.data_spec() == self.data_spec(),
    {
        proof {
            use_type_invariant(self);
        }
        CanFrame { id: self.id, data: self.data.clone() }
    }
}

/// A CAN FD frame (up to 64 data bytes).
///
/// The data length is held as a byte count, never as the 4-bit on-wire DLC
/// code; it is always one of the valid CAN FD data lengths.
#[derive(Debug, PartialEq, Eq)]
pub struct CanFdFrame {
    id: CanId,
    data: Vec<u8>,
    brs: bool,
    esi: bool,
}

impl CanFdFrame {
    #[verifier::type_invariant]
    spec fn inv(self) -> bool {
        is_fd_len(self.data@.len() as int)
    }

    /// The frame's identifier.
    pub closed spec fn id_spec(self) -> CanId {
        self.id
    }

    /// The frame's payload.
    pub closed spec fn data_spec(self) -> Seq<u8> {
        self.data@
    }

    /// The Bit Rate Switch flag.
    pub closed spec fn brs_spec(self) -> bool {
        self.brs
    }

    /// The Error State Indicator flag.
    pub closed spec fn esi_spec(self) -> bool {
        self.esi
    }

    /// Create a new CAN FD frame.
    ///
    /// Returns `None` if `data.len()` is not a valid FD data length
    /// (0, 1, ..., 8, 12, 16, 20, 24, 32, 48, or 64).
    pub fn new(id: CanId, data: &[u8], brs: bool, esi: bool) -> (r: Option<CanFdFrame>)
        ensures
            r is Some <==> is_fd_len(data@.len() as int),
            r matches Some(f) ==> {
                &&& f.id_spec() == id
                &&& f.data_spec() == data@
                &&& f.brs_spec() == brs
                &&& f.esi_spec() == esi
            },
    {
        let n = data.len();
        if !(n <= 8 || n == 12 || n == 16 || n == 20 || n == 24 || n == 32 || n == 48 || n
            == 64) {
            return None;
        }
        let mut buf: Vec<u8> = Vec::new();
        buf.extend_from_slice(data);
        Some(CanFdFrame { id, data: buf, brs, esi })
    }

    /// Returns the frame's CAN identifier.
    pub fn id(&self) -> (r: CanId)
        ensures
            r == self.id_spec(),
    {
        self.id
    }

    /// Returns the data length in bytes (not the 4-bit DLC code).
    pub fn len(&self) -> (r: usize)
        ensures
            r == self.data_spec().len(),
            is_fd_len(r as int),
    {
        proof {
            use_type_invariant(self);
        }
        self.data.len()
    }

    /// Returns `true` if the frame carries zero data bytes.
    pub fn is_empty(&self) -> (r: bool)
        ensures
            r == (self.data_spec().len() == 0),
    {
        self.data.len() == 0
    }

    /// Returns the data payload.
    pub fn data(&self) -> (r: &[u8])
        ensures
            r@ == self.data_spec(),
    {
        self.data.as_slice()
    }

    /// Returns `true` if the Bit Rate Switch flag is set.
    pub fn brs(&self) -> (r: bool)
        ensures
            r == self.brs_spec(),
    {
        self.brs
    }

    /// Returns `true` if the Error State Indicator flag is set.
    pub fn esi(&self) -> (r: bool)
        ensures
            r == self.esi_spec(),
    {
        self.esi
    }
}

impl Clone for CanFdFrame {
    fn clone(&self) -> (r: Self)
        ensures
            r.id_spec() == self.id_spec(),
            r.data_spec() == self.data_spec(),
            r.brs_spec() == self.brs_spec(),
            r.esi_spec() == self.esi_spec(),
    {
        proof {
            use_type_invariant(self);
        }
        CanFdFrame { id: self.id, data: self.data.clone(), brs: self.brs, esi: self.esi }
    }
}

/// A frame of either type - used when receiving on an FD-capable bus.
#[derive(Debug, Clone, PartialEq, Eq)]
pub enum Frame {
    Can(CanFrame),
    Fd(CanFdFrame),
}

impl Frame {
    /// The frame's identifier, whichever its type.
    pub open spec fn id_spec(self) -> CanId {
        match self {
            Frame::Can(f) => f.id_spec(),
            Frame::Fd(f) => f.id_spec(),
        }
    }

    /// The frame's payload, whichever its type.
    pub open spec fn data_spec(self) -> Seq<u8> {
        match self {
            Frame::Can(f) => f.data_spec(),
            Frame::Fd(f) => f.data_spec(),
        }
    }

    /// Returns the frame's CAN identifier regardless of frame type.
    pub fn id(&self) -> (r: CanId)
        ensures
            r == self.id_spec(),
    {
        match self {
            Frame::Can(f) => f.id(),
            Frame::Fd(f) => f.id(),
        }
    }

    /// Returns the data payload regardless of frame type.
    pub fn data(&self) -> (r: &[u8])
        ensures
            r@ == self.data_spec(),
    {
        match self {
            Frame::Can(f) => f.data(),
            Frame::Fd(f) => f.data(),
        }
    }

    /// Returns the data length in bytes regardless of frame type.
    pub fn len(&self) -> (r: usize)
        ensures
            r == self.data_spec().len(),
    {
        match self {
            Frame::Can(f) => f.len(),
            Frame::Fd(f) => f.len(),
        }
    }

    /// Returns `true` if the frame carries zero data bytes.
    pub fn is_empty(&self) -> (r: bool)
        ensures
            r == (self.data_spec().len() == 0),
    {
        match self {
            Frame::Can(f) => f.is_empty(),
            Frame::Fd(f) => f.is_empty(),
        }
    }
}

/// A received frame paired with its timestamp.
///
/// The timestamp type `T` is chosen by the backend implementation; on `std`
/// platforms this is typically `std::time::Instant`.
#[derive(Debug, Clone)]
pub struct Timestamped<F, T = Instant> {
    frame: F,
    timestamp: T,
}

impl<F, T> Timestamped<F, T> {
    /// The frame held.
    pub closed spec fn frame_spec(self) -> F {
        self.frame
    }

    /// The timestamp held.
    pub closed spec fn timestamp_spec(self) -> T {
        self.timestamp
    }

    /// Create a new timestamped frame.
    pub fn new(frame: F, timestamp: T) -> (r: Self)
        ensures
            r.frame_spec() == frame,
            r.timestamp_spec() == timestamp,
    {
        Timestamped { frame, timestamp }
    }

    /// Returns a reference to the inner frame.
    pub fn frame(&self) -> (r: &F)
        ensures
            *r == self.frame_spec(),
    {
        &self.frame
    }

    /// Returns a reference to the timestamp.
    pub fn timestamp(&self) -> (r: &T)
        ensures
            *r == self.timestamp_spec(),
    {
        &self.timestamp
    }

    /// Consumes self and returns the inner frame.
    pub fn into_frame(self) -> (r: F)
        ensures
            r == self.frame_spec(),
    {
        self.frame
    }
}

} // verus!
