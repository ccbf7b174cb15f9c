//! KVASER driver and typestate channel builder.
//!
//! The driver holds the loaded CANlib library (of any type `Lib`, which
//! the application supplies) and hands a clone of it to each builder. The
//! builder validates the configuration eagerly: a bitrate that does not
//! divide the 80 MHz clock, or explicit segments outside the limits, are
//! refused at the call that supplies them.

use vstd::prelude::*;

use crate::kvaser::error::KvaserError;
use crate::kvaser::mode::{Classic, ClassicExplicit, Fd, FdExplicit, Initial};
use crate::kvaser::timing::{
    check_segments, segments_in_range, segments_message, solve_data, solve_nominal, solved_phase,
    no_timing_message, BusParams, BusParamsFd, KVASER_CLOCK_HZ,
};
use crate::bittiming::TimingPhase;
use crate::timing::SamplePoint;

verus! {

/// Whether a bitrate divides the 80 MHz clock exactly.
pub open spec fn divides_clock(bitrate_hz: u32) -> bool {
    bitrate_hz != 0 && KVASER_CLOCK_HZ % bitrate_hz == 0
}

/// Driver for KVASER CAN adapters using the CANlib API.
pub struct KvaserDriver<Lib> {
    lib: Lib,
}

/// Typestate-driven builder for a KVASER channel.
///
/// Starts in [`Initial`] (returned by [`KvaserDriver::channel`]) and moves
/// to [`Classic`], [`Fd`], [`ClassicExplicit`] or [`FdExplicit`]; only the
/// methods valid for the current state are available.
pub struct KvaserChannelBuilder<Mode, Lib> {
    lib: Lib,
    channel_index: i32,
    state: Mode,
}

impl<Lib: Clone> KvaserDriver<Lib> {
    /// The driver over a loaded CANlib library.
    pub fn new(lib: Lib) -> (r: Self)
        ensures
            r.lib_spec() == lib,
    {
        KvaserDriver { lib }
    }

    pub closed spec fn lib_spec(&self) -> Lib {
        self.lib
    }

    /// The loaded library.
    pub fn library(&self) -> (r: &Lib)
        ensures
            *r == self.lib_spec(),
    {
        &self.lib
    }

    /// Begin configuring the channel at the given 0-based index.
    pub fn channel(&self, index: u32) -> (r: Result<KvaserChannelBuilder<Initial, Lib>, KvaserError>)
        ensures
            r matches Ok(b) && b.index_spec() == index as i32 && b.state_spec() == Initial,
    {
        Ok(KvaserChannelBuilder { lib: self.lib.clone(), channel_index: index as i32, state: Initial })
    }
}

impl<Mode, Lib> KvaserChannelBuilder<Mode, Lib> {
    pub closed spec fn index_spec(&self) -> i32 {
        self.channel_index
    }

    pub closed spec fn state_spec(&self) -> Mode {
        self.state
    }

    pub closed spec fn lib_spec(&self) -> Lib {
        self.lib
    }

    /// The 0-based CANlib channel index.
    pub fn channel_index(&self) -> (r: i32)
        ensures
            r == self.index_spec(),
    {
        self.channel_index
    }

    /// The configuration gathered so far.
    pub fn state(&self) -> (r: &Mode)
        ensures
            *r == self.state_spec(),
    {
        &self.state
    }

    /// The library, channel index and configuration, for opening the channel.
    pub fn into_parts(self) -> (r: (Lib, i32, Mode))
        ensures
            r == (self.lib_spec(), self.index_spec(), self.state_spec()),
    {
        (self.lib, self.channel_index, self.state)
    }
}

impl<Lib> KvaserChannelBuilder<Initial, Lib> {
    /// Configure the channel for classic CAN at the given bitrate (Hz),
    /// with the 70% default sample point.
    ///
    /// Fails if the bitrate does not evenly divide the 80 MHz CANlib clock.
    pub fn classic(self, bitrate_hz: u32) -> (r: Result<KvaserChannelBuilder<Classic, Lib>, KvaserError>)
        ensures
            !divides_clock(bitrate_hz) ==> r == Err::<KvaserChannelBuilder<Classic, Lib>, KvaserError>(
                KvaserError::UnsupportedBitrate(bitrate_hz),
            ),
            divides_clock(bitrate_hz) ==> (r matches Ok(b) && b.index_spec() == self.index_spec()
                && b.lib_spec() == self.lib_spec() && b.state_spec().bitrate_spec() == bitrate_hz
                && b.state_spec().sample_point_spec().per_mille_spec() == 700),
    {
        if bitrate_hz == 0 || KVASER_CLOCK_HZ % bitrate_hz != 0 {
            return Err(KvaserError::UnsupportedBitrate(bitrate_hz));
        }
        Ok(
            KvaserChannelBuilder {
                lib: self.lib,
                channel_index: self.channel_index,
                state: Classic::new(bitrate_hz, SamplePoint::nominal_default()),
            },
        )
    }

    /// Configure the channel for CAN FD with the given nominal and data
    /// bitrates (Hz), with the 70% and 80% default sample points.
    ///
    /// Fails if either bitrate does not evenly divide the 80 MHz clock; the
    /// nominal one is checked first.
    pub fn fd(self, nominal_hz: u32, data_hz: u32) -> (r: Result<KvaserChannelBuilder<Fd, Lib>, KvaserError>)
        ensures
            !divides_clock(nominal_hz) ==> r == Err::<KvaserChannelBuilder<Fd, Lib>, KvaserError>(
                KvaserError::UnsupportedBitrate(nominal_hz),
            ),
            divides_clock(nominal_hz) && !divides_clock(data_hz) ==> r == Err::<
                KvaserChannelBuilder<Fd, Lib>,
                KvaserError,
            >(KvaserError::UnsupportedBitrate(data_hz)),
            divides_clock(nominal_hz) && divides_clock(data_hz) ==> (r matches Ok(b) && b.index_spec()
                == self.index_spec() && b.lib_spec() == self.lib_spec()
                && b.state_spec().nominal_spec() == nominal_hz && b.state_spec().data_spec() == data_hz
                && b.state_spec().sample_point_spec().per_mille_spec() == 700
                && b.state_spec().data_sample_point_spec().per_mille_spec() == 800),
    {
        if nominal_hz == 0 || KVASER_CLOCK_HZ % nominal_hz != 0 {
            return Err(KvaserError::UnsupportedBitrate(nominal_hz));
        }
        if data_hz == 0 || KVASER_CLOCK_HZ % data_hz != 0 {
            return Err(KvaserError::UnsupportedBitrate(data_hz));
        }
        Ok(
            KvaserChannelBuilder {
                lib: self.lib,
                channel_index: self.channel_index,
                state: Fd::new(
                    nominal_hz,
                    data_hz,
                    SamplePoint::nominal_default(),
                    SamplePoint::data_default(),
                ),
            },
        )
    }

    /// Configure the channel for classic CAN with explicit nominal timing,
    /// bypassing the solver.
    ///
    /// Fails if the bitrate does not divide the 80 MHz clock, or if a
    /// segment lies outside the nominal limits (tseg1 in 1..=256, tseg2 in
    /// 1..=128).
    pub fn classic_explicit(self, bitrate_hz: u32, params: BusParams) -> (r: Result<
        KvaserChannelBuilder<ClassicExplicit, Lib>,
        KvaserError,
    >)
        ensures
            !divides_clock(bitrate_hz) ==> r == Err::<
                KvaserChannelBuilder<ClassicExplicit, Lib>,
                KvaserError,
            >(KvaserError::UnsupportedBitrate(bitrate_hz)),
            divides_clock(bitrate_hz) && !segments_in_range(
                params.tseg1,
                params.tseg2,
                TimingPhase::Nominal,
            ) ==> (r matches Err(KvaserError::UnsupportedTiming(msg)) && msg@ == segments_message(
                TimingPhase::Nominal,
                params.tseg1 as nat,
                params.tseg2 as nat,
            )),
            divides_clock(bitrate_hz) && segments_in_range(
                params.tseg1,
                params.tseg2,
                TimingPhase::Nominal,
            ) ==> (r matches Ok(b) && b.index_spec() == self.index_spec() && b.lib_spec()
                == self.lib_spec() && b.state_spec().bitrate_spec() == bitrate_hz
                && b.state_spec().params_spec() == params),
    {
        if bitrate_hz == 0 || KVASER_CLOCK_HZ % bitrate_hz != 0 {
            return Err(KvaserError::UnsupportedBitrate(bitrate_hz));
        }
        match check_segments(params.tseg1, params.tseg2, TimingPhase::Nominal) {
            Ok(()) => {},
            Err(e) => return Err(e),
        }
        Ok(
            KvaserChannelBuilder {
                lib: self.lib,
                channel_index: self.channel_index,
                state: ClassicExplicit::new(bitrate_hz, params),
            },
        )
    }

    /// Configure the channel for CAN FD with explicit nominal and data
    /// timing, bypassing the solver.
    ///
    /// Fails if either bitrate does not divide the 80 MHz clock (nominal
    /// first); the segments are handed to the hardware as given.
    pub fn fd_explicit(self, nominal_hz: u32, data_hz: u32, params: BusParams, fd_params: BusParamsFd) -> (r:
        Result<KvaserChannelBuilder<FdExplicit, Lib>, KvaserError>)
        ensures
            !divides_clock(nominal_hz) ==> r == Err::<
                KvaserChannelBuilder<FdExplicit, Lib>,
                KvaserError,
            >(KvaserError::UnsupportedBitrate(nominal_hz)),
            divides_clock(nominal_hz) && !divides_clock(data_hz) ==> r == Err::<
                KvaserChannelBuilder<FdExplicit, Lib>,
                KvaserError,
            >(KvaserError::UnsupportedBitrate(data_hz)),
            divides_clock(nominal_hz) && divides_clock(data_hz) ==> (r matches Ok(b)
                && b.index_spec() == self.index_spec() && b.lib_spec() == self.lib_spec()
                && b.state_spec().nominal_spec() == nominal_hz && b.state_spec().data_spec() == data_hz
                && b.state_spec().params_spec() == params && b.state_spec().fd_params_spec()
                == fd_params),
    {
        if nominal_hz == 0 || KVASER_CLOCK_HZ % nominal_hz != 0 {
            return Err(KvaserError::UnsupportedBitrate(nominal_hz));
        }
        if data_hz == 0 || KVASER_CLOCK_HZ % data_hz != 0 {
            return Err(KvaserError::UnsupportedBitrate(data_hz));
        }
        Ok(
            KvaserChannelBuilder {
                lib: self.lib,
                channel_index: self.channel_index,
                state: FdExplicit::new(nominal_hz, data_hz, params, fd_params),
            },
        )
    }
}

impl<Lib> KvaserChannelBuilder<Classic, Lib> {
    /// Override the nominal sample point (70% when not called).
    pub fn sample_point(self, sample_point: SamplePoint) -> (r: Self)
        ensures
            r.index_spec() == self.index_spec(),
            r.lib_spec() == self.lib_spec(),
            r.state_spec().bitrate_spec() == self.state_spec().bitrate_spec(),
            r.state_spec().sample_point_spec() == sample_point,
    {
        let mut b = self;
        b.state.set_sample_point(sample_point);
        b
    }

    /// The nominal bus parameters the solver gives for the configuration;
    /// what `connect` applies.
    pub fn bus_params(&self) -> (r: Result<BusParams, KvaserError>)
        ensures
            match solved_phase(
                self.state_spec().bitrate_spec() as nat,
                self.state_spec().sample_point_spec().per_mille_spec() as nat,
                TimingPhase::Nominal,
            ) {
                None => r matches Err(KvaserError::UnsupportedTiming(msg)) && msg@
                    == no_timing_message(
                    TimingPhase::Nominal,
                    self.state_spec().bitrate_spec() as nat,
                    self.state_spec().sample_point_spec().per_mille_spec() as nat,
                ),
                Some((tseg1, tseg2, sjw)) => r matches Ok(p) && p.tseg1 == tseg1 && p.tseg2
                    == tseg2 && p.sjw == sjw && p.no_samp == 1 && p.sync_mode == 0,
            },
    {
        solve_nominal(self.state.bitrate_hz(), self.state.sample_point())
    }
}

impl<Lib> KvaserChannelBuilder<Fd, Lib> {
    /// Override the nominal-phase sample point (70% when not called).
    pub fn sample_point(self, sample_point: SamplePoint) -> (r: Self)
        ensures
            r.index_spec() == self.index_spec(),
            r.lib_spec() == self.lib_spec(),
            r.state_spec().nominal_spec() == self.state_spec().nominal_spec(),
            r.state_spec().data_spec() == self.state_spec().data_spec(),
            r.state_spec().data_sample_point_spec() == self.state_spec().data_sample_point_spec(),
            r.state_spec().sample_point_spec() == sample_point,
    {
        let mut b = self;
        b.state.set_sample_point(sample_point);
        b
    }

    /// Override the data-phase sample point (80% when not called).
    pub fn data_sample_point(self, sample_point: SamplePoint) -> (r: Self)
        ensures
            r.index_spec() == self.index_spec(),
            r.lib_spec() == self.lib_spec(),
            r.state_spec().nominal_spec() == self.state_spec().nominal_spec(),
            r.state_spec().data_spec() == self.state_spec().data_spec(),
            r.state_spec().sample_point_spec() == self.state_spec().sample_point_spec(),
            r.state_spec().data_sample_point_spec() == sample_point,
    {
        let mut b = self;
        b.state.set_data_sample_point(sample_point);
        b
    }

    /// Both phases' bus parameters the solver gives for the configuration;
    /// what `connect` applies. The nominal phase is solved first.
    pub fn bus_params(&self) -> (r: Result<(BusParams, BusParamsFd), KvaserError>)
        ensures
            ({
                let s = self.state_spec();
                let n = solved_phase(
                    s.nominal_spec() as nat,
                    s.sample_point_spec().per_mille_spec() as nat,
                    TimingPhase::Nominal,
                );
                let d = solved_phase(
                    s.data_spec() as nat,
                    s.data_sample_point_spec().per_mille_spec() as nat,
                    TimingPhase::Data,
                );
                match (n, d) {
                    (None, _) => r matches Err(KvaserError::UnsupportedTiming(msg)) && msg@
                        == no_timing_message(
                        TimingPhase::Nominal,
                        s.nominal_spec() as nat,
                        s.sample_point_spec().per_mille_spec() as nat,
                    ),
                    (Some(_), None) => r matches Err(KvaserError::UnsupportedTiming(msg)) && msg@
                        == no_timing_message(
                        TimingPhase::Data,
                        s.data_spec() as nat,
                        s.data_sample_point_spec().per_mille_spec() as nat,
                    ),
                    (Some((t1, t2, j)), Some((u1, u2, k))) => r matches Ok((p, q)) && p.tseg1 == t1
                        && p.tseg2 == t2 && p.sjw == j && p.no_samp == 1 && p.sync_mode == 0
                        && q.tseg1 == u1 && q.tseg2 == u2 && q.sjw == k,
                }
            }),
    {
        let p = match solve_nominal(self.state.nominal_hz(), self.state.sample_point()) {
            Ok(p) => p,
            Err(e) => return Err(e),
        };
        let q = match solve_data(self.state.data_hz(), self.state.data_sample_point()) {
            Ok(q) => q,
            Err(e) => return Err(e),
        };
        Ok((p, q))
    }
}

} // verus!
