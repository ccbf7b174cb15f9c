//! Acceptance filters.

use vstd::prelude::*;

use crate::id::CanId;

verus! {

/// A hardware acceptance filter defined by an ID and a mask.
///
/// An identifier `x` of the filter's kind matches when
/// `x & mask == id & mask`.
#[derive(Debug, Clone, Copy, PartialEq, Eq, Structural)]
pub struct Filter {
    pub id: CanId,
    pub mask: u32,
}

impl Filter {
    /// `x` (of this filter's kind) is accepted by the filter.
    pub open spec fn matches(self, x: u32) -> bool {
        x & self.mask == self.id.raw_value() & self.mask
    }
}

/// Hardware acceptance filtering. Not all backends support this.
pub trait Filterable {
    type Error;

    /// Apply the given set of acceptance filters.
    fn set_filters(&mut self, filters: &[Filter]) -> Result<(), Self::Error>;

    /// Remove all acceptance filters (accept everything).
    fn clear_filters(&mut self) -> Result<(), Self::Error>;
}

} // verus!
