//! CAN identifiers.

use vstd::prelude::*;

verus! {

/// Maximum value for an 11-bit standard CAN identifier.
pub const STANDARD_MAX: u16 = 0x7FF;

/// Maximum value for a 29-bit extended CAN identifier.
pub const EXTENDED_MAX: u32 = 0x1FFF_FFFF;

/// A CAN bus identifier, either standard (11-bit) or extended (29-bit).
#[derive(Debug, Clone, Copy, PartialEq, Eq, Hash, Structural)]
pub enum CanId {
    /// Standard 11-bit identifier (0x000–0x7FF).
    Standard(u16),
    /// Extended 29-bit identifier (0x00000000–0x1FFFFFFF).
    Extended(u32),
}

impl CanId {
    /// The identifier lies in the range of its kind.
    pub open spec fn valid(self) -> bool {
        match self {
            CanId::Standard(v) => v <= STANDARD_MAX,
            CanId::Extended(v) => v <= EXTENDED_MAX,
        }
    }

    /// The raw numeric identifier value.
    pub open spec fn raw_value(self) -> u32 {
        match self {
            CanId::Standard(v) => v as u32,
            CanId::Extended(v) => v,
        }
    }

    /// Create a standard (11-bit) CAN ID, returning `None` if the value exceeds 0x7FF.
    pub fn new_standard(id: u16) -> (r: Option<CanId>)
        ensures
            r == (if id <= STANDARD_MAX { Some(CanId::Standard(id)) } else { None::<CanId> }),
    {
        if id <= STANDARD_MAX {
            Some(CanId::Standard(id))
        } else {
            None
        }
    }

    /// Create an extended (29-bit) CAN ID, returning `None` if the value exceeds 0x1FFFFFFF.
    pub fn new_extended(id: u32) -> (r: Option<CanId>)
        ensures
            r == (if id <= EXTENDED_MAX { Some(CanId::Extended(id)) } else { None::<CanId> }),
    {
        if id <= EXTENDED_MAX {
            Some(CanId::Extended(id))
        } else {
            None
        }
    }

    /// Returns the raw numeric identifier value.
    pub fn raw(&self) -> (r: u32)
        ensures
            r == self.raw_value(),
    {
        match *self {
            CanId::Standard(id) => id as u32,
            CanId::Extended(id) => id,
        }
    }

    /// Returns `true` if this is a standard (11-bit) identifier.
    pub fn is_standard(&self) -> (r: bool)
        ensures
            r == (*self is Standard),
    {
        matches!(self, CanId::Standard(_))
    }

    /// Returns `true` if this is an extended (29-bit) identifier.
    pub fn is_extended(&self) -> (r: bool)
        ensures
            r == (*self is Extended),
    {
        matches!(self, CanId::Extended(_))
    }
}

} // verus!
