//! Type-state markers for the KVASER channel builder.
//!
//! The builder carries one of these as its state, so only the methods
//! valid on the configuration path it is on can be called.

use vstd::prelude::*;

use crate::kvaser::timing::{BusParams, BusParamsFd};
use crate::timing::SamplePoint;

verus! {

/// Initial state. The builder hasn't picked classic vs FD yet.
#[derive(Debug, Clone, Copy, PartialEq, Eq, Structural)]
pub struct Initial;

/// Classic-CAN state, solver-driven path.
#[derive(Debug, Clone, Copy, PartialEq, Eq)]
pub struct Classic {
    bitrate_hz: u32,
    sample_point: SamplePoint,
}

impl Classic {
    pub closed spec fn bitrate_spec(self) -> u32 {
        self.bitrate_hz
    }

    pub closed spec fn sample_point_spec(self) -> SamplePoint {
        self.sample_point
    }

    pub fn new(bitrate_hz: u32, sample_point: SamplePoint) -> (r: Classic)
        ensures
            r.bitrate_spec() == bitrate_hz,
            r.sample_point_spec() == sample_point,
    {
        Classic { bitrate_hz, sample_point }
    }

    pub fn bitrate_hz(&self) -> (r: u32)
        ensures
            r == self.bitrate_spec(),
    {
        self.bitrate_hz
    }

    pub fn sample_point(&self) -> (r: SamplePoint)
        ensures
            r == self.sample_point_spec(),
    {
        self.sample_point
    }

    pub fn set_sample_point(&mut self, sp: SamplePoint)
        ensures
            final(self).sample_point_spec() == sp,
            final(self).bitrate_spec() == old(self).bitrate_spec(),
    {
        self.sample_point = sp;
    }
}

/// Classic-CAN state, raw-timing path: the nominal bus parameters are
/// fully specified and no further configuration is possible.
#[derive(Debug, Clone, Copy, PartialEq, Eq, Structural)]
pub struct ClassicExplicit {
    bitrate_hz: u32,
    params: BusParams,
}

impl ClassicExplicit {
    pub closed spec fn bitrate_spec(self) -> u32 {
        self.bitrate_hz
    }

    pub closed spec fn params_spec(self) -> BusParams {
        self.params
    }

    pub fn new(bitrate_hz: u32, params: BusParams) -> (r: ClassicExplicit)
        ensures
            r.bitrate_spec() == bitrate_hz,
            r.params_spec() == params,
    {
        ClassicExplicit { bitrate_hz, params }
    }

    pub fn bitrate_hz(&self) -> (r: u32)
        ensures
            r == self.bitrate_spec(),
    {
        self.bitrate_hz
    }

    pub fn params(&self) -> (r: &BusParams)
        ensures
            *r == self.params_spec(),
    {
        &self.params
    }
}

/// CAN FD state, solver-driven path.
#[derive(Debug, Clone, Copy, PartialEq, Eq)]
pub struct Fd {
    nominal_hz: u32,
    data_hz: u32,
    sample_point: SamplePoint,
    data_sample_point: SamplePoint,
}

impl Fd {
    pub closed spec fn nominal_spec(self) -> u32 {
        self.nominal_hz
    }

    pub closed spec fn data_spec(self) -> u32 {
        self.data_hz
    }

    pub closed spec fn sample_point_spec(self) -> SamplePoint {
        self.sample_point
    }

    pub closed spec fn data_sample_point_spec(self) -> SamplePoint {
        self.data_sample_point
    }

    pub fn new(
        nominal_hz: u32,
        data_hz: u32,
        sample_point: SamplePoint,
        data_sample_point: SamplePoint,
    ) -> (r: Fd)
        ensures
            r.nominal_spec() == nominal_hz,
            r.data_spec() == data_hz,
            r.sample_point_spec() == sample_point,
            r.data_sample_point_spec() == data_sample_point,
    {
        Fd { nominal_hz, data_hz, sample_point, data_sample_point }
    }

    pub fn nominal_hz(&self) -> (r: u32)
        ensures
            r == self.nominal_spec(),
    {
        self.nominal_hz
    }

    pub fn data_hz(&self) -> (r: u32)
        ensures
            r == self.data_spec(),
    {
        self.data_hz
    }

    pub fn sample_point(&self) -> (r: SamplePoint)
        ensures
            r == self.sample_point_spec(),
    {
        self.sample_point
    }

    pub fn data_sample_point(&self) -> (r: SamplePoint)
        ensures
            r == self.data_sample_point_spec(),
    {
        self.data_sample_point
    }

    pub fn set_sample_point(&mut self, sp: SamplePoint)
        ensures
            final(self).sample_point_spec() == sp,
            final(self).nominal_spec() == old(self).nominal_spec(),
            final(self).data_spec() == old(self).data_spec(),
            final(self).data_sample_point_spec() == old(self).data_sample_point_spec(),
    {
        self.sample_point = sp;
    }

    pub fn set_data_sample_point(&mut self, sp: SamplePoint)
        ensures
            final(self).data_sample_point_spec() == sp,
            final(self).nominal_spec() == old(self).nominal_spec(),
            final(self).data_spec() == old(self).data_spec(),
            final(self).sample_point_spec() == old(self).sample_point_spec(),
    {
        self.data_sample_point = sp;
    }
}

/// CAN FD state, raw-timing path: both phases' bus parameters are fully
/// specified and no further configuration is possible.
#[derive(Debug, Clone, Copy, PartialEq, Eq, Structural)]
pub struct FdExplicit {
    nominal_hz: u32,
    data_hz: u32,
    params: BusParams,
    fd_params: BusParamsFd,
}

impl FdExplicit {
    pub closed spec fn nominal_spec(self) -> u32 {
        self.nominal_hz
    }

    pub closed spec fn data_spec(self) -> u32 {
        self.data_hz
    }

    pub closed spec fn params_spec(self) -> BusParams {
        self.params
    }

    pub closed spec fn fd_params_spec(self) -> BusParamsFd {
        self.fd_params
    }

    pub fn new(nominal_hz: u32, data_hz: u32, params: BusParams, fd_params: BusParamsFd) -> (r:
        FdExplicit)
        ensures
            r.nominal_spec() == nominal_hz,
            r.data_spec() == data_hz,
            r.params_spec() == params,
            r.fd_params_spec() == fd_params,
    {
        FdExplicit { nominal_hz, data_hz, params, fd_params }
    }

    pub fn nominal_hz(&self) -> (r: u32)
        ensures
            r == self.nominal_spec(),
    {
        self.nominal_hz
    }

    pub fn data_hz(&self) -> (r: u32)
        ensures
            r == self.data_spec(),
    {
        self.data_hz
    }

    pub fn params(&self) -> (r: &BusParams)
        ensures
            *r == self.params_spec(),
    {
        &self.params
    }

    pub fn fd_params(&self) -> (r: &BusParamsFd)
        ensures
            *r == self.fd_params_spec(),
    {
        &self.fd_params
    }
}

} // verus!
