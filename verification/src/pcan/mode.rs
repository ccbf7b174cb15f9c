//! Type-state markers for the PCAN channel builder.

use vstd::prelude::*;

use crate::pcan::timing::PcanFdTiming;
use crate::timing::SamplePoint;

verus! {

/// Initial state. The builder hasn't picked classic vs FD yet.
#[derive(Debug, Clone, Copy, PartialEq, Eq, Structural)]
pub struct Initial;

/// Classic-CAN state: one of PCAN-Basic's predefined bitrates.
#[derive(Debug, Clone, Copy, PartialEq, Eq, Structural)]
pub struct Classic {
    bitrate_const: u16,
}

impl Classic {
    pub closed spec fn bitrate_const_spec(self) -> u16 {
        self.bitrate_const
    }

    pub fn new(bitrate_const: u16) -> (r: Classic)
        ensures
            r.bitrate_const_spec() == bitrate_const,
    {
        Classic { bitrate_const }
    }

    /// The `PCAN_BAUD_*` constant.
    pub fn bitrate_const(&self) -> (r: u16)
        ensures
            r == self.bitrate_const_spec(),
    {
        self.bitrate_const
    }
}

/// CAN FD state, solver-driven path.
#[derive(Debug, Clone, Copy, PartialEq, Eq)]
pub struct Fd {
    nominal_hz: u32,
    data_hz: u32,
    sample_point: SamplePoint,
    data_sample_point: SamplePoint,
}

impl Fd {
    pub closed spec fn nominal_spec(self) -> u32 {
        self.nominal_hz
    }

    pub closed spec fn data_spec(self) -> u32 {
        self.data_hz
    }

    pub closed spec fn sample_point_spec(self) -> SamplePoint {
        self.sample_point
    }

    pub closed spec fn data_sample_point_spec(self) -> SamplePoint {
        self.data_sample_point
    }

    pub fn new(
        nominal_hz: u32,
        data_hz: u32,
        sample_point: SamplePoint,
        data_sample_point: SamplePoint,
    ) -> (r: Fd)
        ensures
            r.nominal_spec() == nominal_hz,
            r.data_spec() == data_hz,
            r.sample_point_spec() == sample_point,
            r.data_sample_point_spec() == data_sample_point,
    {
        Fd { nominal_hz, data_hz, sample_point, data_sample_point }
    }

    pub fn nominal_hz(&self) -> (r: u32)
        ensures
            r == self.nominal_spec(),
    {
        self.nominal_hz
    }

    pub fn data_hz(&self) -> (r: u32)
        ensures
            r == self.data_spec(),
    {
        self.data_hz
    }

    pub fn sample_point(&self) -> (r: SamplePoint)
        ensures
            r == self.sample_point_spec(),
    {
        self.sample_point
    }

    pub fn data_sample_point(&self) -> (r: SamplePoint)
        ensures
            r == self.data_sample_point_spec(),
    {
        self.data_sample_point
    }

    pub fn set_sample_point(&mut self, sp: SamplePoint)
        ensures
            final(self).sample_point_spec() == sp,
            final(self).nominal_spec() == old(self).nominal_spec(),
            final(self).data_spec() == old(self).data_spec(),
            final(self).data_sample_point_spec() == old(self).data_sample_point_spec(),
    {
        self.sample_point = sp;
    }

    pub fn set_data_sample_point(&mut self, sp: SamplePoint)
        ensures
            final(self).data_sample_point_spec() == sp,
            final(self).nominal_spec() == old(self).nominal_spec(),
            final(self).data_spec() == old(self).data_spec(),
            final(self).sample_point_spec() == old(self).sample_point_spec(),
    {
        self.data_sample_point = sp;
    }
}

/// CAN FD state, explicit-timing path: no further configuration.
#[derive(Debug, Clone, Copy, PartialEq, Eq, Structural)]
pub struct FdExplicit {
    timing: PcanFdTiming,
}

impl FdExplicit {
    pub closed spec fn timing_spec(self) -> PcanFdTiming {
        self.timing
    }

    pub fn new(timing: PcanFdTiming) -> (r: FdExplicit)
        ensures
            r.timing_spec() == timing,
    {
        FdExplicit { timing }
    }

    /// The timing supplied.
    pub fn timing(&self) -> (r: PcanFdTiming)
        ensures
            r == self.timing_spec(),
    {
        self.timing
    }
}

} // verus!
