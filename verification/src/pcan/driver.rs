//! PCAN driver and typestate channel builder.
//!
//! The driver holds the loaded PCAN-Basic library (of any type `Lib`,
//! which the application supplies) and hands a clone of it to each
//! builder. Channel indices and FD bitrates are checked where they are
//! given, not at `connect`.

use vstd::prelude::*;

use crate::bittiming::TimingPhase;
use crate::pcan::error::PcanError;
use crate::pcan::ffi::{handle_of, pcan_handle};
use crate::pcan::mode::{Classic, Fd, FdExplicit, Initial};
use crate::pcan::timing::{
    baud_const_of, bus_code_of, is_solution, no_pcan_timing_message, solve_phase_or_error,
    solved_pcan_phase, ClassicBitrate, PcanBusType, PcanFdTiming, PCAN_CLOCK_HZ,
};
use crate::timing::SamplePoint;

verus! {

/// Whether a bitrate divides the 80 MHz clock exactly.
pub open spec fn divides_pcan_clock(hz: u32) -> bool {
    hz != 0 && PCAN_CLOCK_HZ % hz == 0
}

/// PCAN-Basic driver: the factory for channel builders.
pub struct PcanDriver<Lib> {
    lib: Lib,
}

/// Typestate-driven builder for a PCAN channel.
pub struct PcanChannelBuilder<Mode, Lib> {
    lib: Lib,
    handle: u16,
    state: Mode,
}

impl<Lib: Clone> PcanDriver<Lib> {
    /// The driver over a loaded PCAN-Basic library.
    pub fn new(lib: Lib) -> (r: Self)
        ensures
            r.lib_spec() == lib,
    {
        PcanDriver { lib }
    }

    pub closed spec fn lib_spec(&self) -> Lib {
        self.lib
    }

    /// The loaded library.
    pub fn library(&self) -> (r: &Lib)
        ensures
            *r == self.lib_spec(),
    {
        &self.lib
    }

    /// Begin configuring a USB channel by 0-based index (0 through 15).
    pub fn channel(&self, index: u32) -> (r: Result<PcanChannelBuilder<Initial, Lib>, PcanError>)
        ensures
            index > 15 ==> (r matches Err(PcanError::InvalidChannel(i)) && i == index),
            index <= 15 ==> (r matches Ok(b) && Some(b.handle_spec()) == handle_of(0, index as u16)),
    {
        self.channel_on_bus(PcanBusType::Usb, index)
    }

    /// Begin configuring a channel on a specific bus type; `index` is
    /// 0-based (0 through 15).
    pub fn channel_on_bus(&self, bus_type: PcanBusType, index: u32) -> (r: Result<
        PcanChannelBuilder<Initial, Lib>,
        PcanError,
    >)
        ensures
            index > 15 ==> (r matches Err(PcanError::InvalidChannel(i)) && i == index),
            index <= 15 ==> (r matches Ok(b) && Some(b.handle_spec()) == handle_of(
                bus_code_of(bus_type),
                index as u16,
            )),
    {
        if index > 15 {
            return Err(PcanError::InvalidChannel(index));
        }
        match pcan_handle(bus_type.code(), index as u16) {
            Some(handle) => Ok(PcanChannelBuilder { lib: self.lib.clone(), handle, state: Initial }),
            None => Err(PcanError::InvalidChannel(index)),
        }
    }
}

impl<Mode, Lib> PcanChannelBuilder<Mode, Lib> {
    pub closed spec fn handle_spec(&self) -> u16 {
        self.handle
    }

    pub closed spec fn state_spec(&self) -> Mode {
        self.state
    }

    pub closed spec fn lib_spec(&self) -> Lib {
        self.lib
    }

    /// The PCAN channel handle.
    pub fn handle(&self) -> (r: u16)
        ensures
            r == self.handle_spec(),
    {
        self.handle
    }

    /// The configuration gathered so far.
    pub fn state(&self) -> (r: &Mode)
        ensures
            *r == self.state_spec(),
    {
        &self.state
    }

    /// The library, handle and configuration, for opening the channel.
    pub fn into_parts(self) -> (r: (Lib, u16, Mode))
        ensures
            r == (self.lib_spec(), self.handle_spec(), self.state_spec()),
    {
        (self.lib, self.handle, self.state)
    }
}

impl<Lib> PcanChannelBuilder<Initial, Lib> {
    /// Configure the channel for classic CAN at one of PCAN-Basic's
    /// predefined bitrates. Classic mode has no sample-point control.
    pub fn classic(self, bitrate: ClassicBitrate) -> (r: PcanChannelBuilder<Classic, Lib>)
        ensures
            r.handle_spec() == self.handle_spec(),
            r.lib_spec() == self.lib_spec(),
            r.state_spec().bitrate_const_spec() == baud_const_of(bitrate),
    {
        PcanChannelBuilder { lib: self.lib, handle: self.handle, state: Classic::new(bitrate.as_pcan()) }
    }

    /// Configure the channel for CAN FD with the given nominal and data
    /// bitrates (Hz), with the 70% and 80% default sample points.
    ///
    /// Fails if either bitrate does not evenly divide the 80 MHz clock; the
    /// nominal one is checked first.
    pub fn fd(self, nominal_hz: u32, data_hz: u32) -> (r: Result<PcanChannelBuilder<Fd, Lib>, PcanError>)
        ensures
            !divides_pcan_clock(nominal_hz) ==> (r matches Err(PcanError::UnsupportedBitrate(hz))
                && hz == nominal_hz),
            divides_pcan_clock(nominal_hz) && !divides_pcan_clock(data_hz) ==> (r matches Err(
                PcanError::UnsupportedBitrate(hz),
            ) && hz == data_hz),
            divides_pcan_clock(nominal_hz) && divides_pcan_clock(data_hz) ==> (r matches Ok(b)
                && b.handle_spec() == self.handle_spec() && b.lib_spec() == self.lib_spec()
                && b.state_spec().nominal_spec() == nominal_hz && b.state_spec().data_spec()
                == data_hz && b.state_spec().sample_point_spec().per_mille_spec() == 700
                && b.state_spec().data_sample_point_spec().per_mille_spec() == 800),
    {
        if nominal_hz == 0 || PCAN_CLOCK_HZ % nominal_hz != 0 {
            return Err(PcanError::UnsupportedBitrate(nominal_hz));
        }
        if data_hz == 0 || PCAN_CLOCK_HZ % data_hz != 0 {
            return Err(PcanError::UnsupportedBitrate(data_hz));
        }
        Ok(
            PcanChannelBuilder {
                lib: self.lib,
                handle: self.handle,
                state: Fd::new(
                    nominal_hz,
                    data_hz,
                    SamplePoint::nominal_default(),
                    SamplePoint::data_default(),
                ),
            },
        )
    }

    /// Configure the channel for CAN FD with explicit per-segment timing,
    /// bypassing the solver; the bitrates are implicit in the segments.
    pub fn fd_explicit(self, timing: PcanFdTiming) -> (r: PcanChannelBuilder<FdExplicit, Lib>)
        ensures
            r.handle_spec() == self.handle_spec(),
            r.lib_spec() == self.lib_spec(),
            r.state_spec().timing_spec() == timing,
    {
        PcanChannelBuilder { lib: self.lib, handle: self.handle, state: FdExplicit::new(timing) }
    }
}

impl<Lib> PcanChannelBuilder<Fd, Lib> {
    /// Override the nominal-phase sample point (70% when not called).
    pub fn sample_point(self, sample_point: SamplePoint) -> (r: Self)
        ensures
            r.handle_spec() == self.handle_spec(),
            r.lib_spec() == self.lib_spec(),
            r.state_spec().nominal_spec() == self.state_spec().nominal_spec(),
            r.state_spec().data_spec() == self.state_spec().data_spec(),
            r.state_spec().data_sample_point_spec() == self.state_spec().data_sample_point_spec(),
            r.state_spec().sample_point_spec() == sample_point,
    {
        let mut b = self;
        b.state.set_sample_point(sample_point);
        b
    }

    /// Override the data-phase sample point (80% when not called).
    pub fn data_sample_point(self, sample_point: SamplePoint) -> (r: Self)
        ensures
            r.handle_spec() == self.handle_spec(),
            r.lib_spec() == self.lib_spec(),
            r.state_spec().nominal_spec() == self.state_spec().nominal_spec(),
            r.state_spec().data_spec() == self.state_spec().data_spec(),
            r.state_spec().sample_point_spec() == self.state_spec().sample_point_spec(),
            r.state_spec().data_sample_point_spec() == sample_point,
    {
        let mut b = self;
        b.state.set_data_sample_point(sample_point);
        b
    }

    /// The FD timing the solver gives for the configuration; what
    /// `connect` applies. The nominal phase is solved first.
    pub fn timing(&self) -> (r: Result<PcanFdTiming, PcanError>)
        ensures
            ({
                let s = self.state_spec();
                let n = solved_pcan_phase(
                    s.nominal_spec() as nat,
                    s.sample_point_spec().per_mille_spec() as nat,
                    TimingPhase::Nominal,
                );
                let d = solved_pcan_phase(
                    s.data_spec() as nat,
                    s.data_sample_point_spec().per_mille_spec() as nat,
                    TimingPhase::Data,
                );
                match (n, d) {
                    (None, _) => r matches Err(PcanError::UnsupportedTiming(m)) && m@
                        == no_pcan_timing_message(
                        TimingPhase::Nominal,
                        s.nominal_spec() as nat,
                        s.sample_point_spec().per_mille_spec() as nat,
                    ),
                    (Some(_), None) => r matches Err(PcanError::UnsupportedTiming(m)) && m@
                        == no_pcan_timing_message(
                        TimingPhase::Data,
                        s.data_spec() as nat,
                        s.data_sample_point_spec().per_mille_spec() as nat,
                    ),
                    (Some(x), Some(y)) => r matches Ok(t) && is_solution(t.nominal, x) && is_solution(
                        t.data,
                        y,
                    ),
                }
            }),
    {
        let nominal = match solve_phase_or_error(
            self.state.nominal_hz(),
            self.state.sample_point(),
            TimingPhase::Nominal,
        ) {
            Ok(t) => t,
            Err(e) => return Err(e),
        };
        let data = match solve_phase_or_error(
            self.state.data_hz(),
            self.state.data_sample_point(),
            TimingPhase::Data,
        ) {
            Ok(t) => t,
            Err(e) => return Err(e),
        };
        Ok(PcanFdTiming { nominal, data })
    }
}

} // verus!
