//! CAN bit-timing types.
//!
//! These are validated value types: out-of-range configurations cannot be
//! represented.

use vstd::prelude::*;

verus! {

/// Lowest accepted sample point, in per-mille.
pub const SAMPLE_POINT_MIN: u16 = 500;

/// Highest accepted sample point, in per-mille.
pub const SAMPLE_POINT_MAX: u16 = 950;

/// Bit-timing sample point as a fraction of the bit time.
///
/// Held as per-mille (e.g., `875` for `87.5%`), always within `[500, 950]`
/// (50%–95%), so out-of-range values are rejected before they reach a
/// backend's timing solver.
#[derive(Debug, Clone, Copy, PartialEq, Eq)]
pub struct SamplePoint(u16);

impl SamplePoint {
    /// Default nominal-phase sample point: 70%.
    pub fn nominal_default() -> (r: SamplePoint)
        ensures
            r.per_mille_spec() == 700,
    {
        SamplePoint(700)
    }

    /// Default data-phase sample point: 80%.
    pub fn data_default() -> (r: SamplePoint)
        ensures
            r.per_mille_spec() == 800,
    {
        SamplePoint(800)
    }

    /// 75% sample point.
    pub fn pct_75() -> (r: SamplePoint)
        ensures
            r.per_mille_spec() == 750,
    {
        SamplePoint(750)
    }

    /// 87.5% sample point, a common industrial recommendation for classic CAN.
    pub fn pct_87_5() -> (r: SamplePoint)
        ensures
            r.per_mille_spec() == 875,
    {
        SamplePoint(875)
    }

    #[verifier::type_invariant]
    spec fn inv(self) -> bool {
        SAMPLE_POINT_MIN <= self.0 <= SAMPLE_POINT_MAX
    }

    /// The per-mille value.
    pub closed spec fn per_mille_spec(self) -> u16 {
        self.0
    }

    /// Construct from per-mille (e.g., `875` for `87.5%`, `700` for `70%`).
    ///
    /// The value must lie in `[500, 950]`.
    pub fn from_per_mille(per_mille: u16) -> (r: SamplePoint)
        requires
            SAMPLE_POINT_MIN <= per_mille <= SAMPLE_POINT_MAX,
        ensures
            r.per_mille_spec() == per_mille,
    {
        SamplePoint(per_mille)
    }

    /// Get the per-mille value (e.g., `875` for `87.5%`).
    pub fn per_mille(self) -> (r: u16)
        ensures
            r == self.per_mille_spec(),
            SAMPLE_POINT_MIN <= r <= SAMPLE_POINT_MAX,
    {
        proof {
            use_type_invariant(&self);
        }
        self.0
    }
}

} // verus!
