//! KVASER bus timing: the solver's limits, the CANlib parameter records,
//! and their conversion to time quanta.

use vstd::prelude::*;

use crate::bittiming::{
    best_timing, lemma_best_timing_exact, phase_limits, phase_name, solve, weighted_limits,
    PhaseLimits, TimingPhase,
};
use crate::kvaser::error::{KvaserError, KvaserStatus};
use crate::kvaser::ffi::{KvBusParamsTq, CAN_ERR_NOT_SUPPORTED};
use crate::text::{decimal, per_mille_fraction, push_decimal, push_per_mille_fraction, push_str};
use crate::timing::SamplePoint;

verus! {

/// Assumed CAN controller clock frequency, 80 MHz.
///
/// Standard on Kvaser U100, Leaf Pro HS v2 and most modern adapters. An
/// explicit `(tseg1, tseg2)` choice works at a bitrate when
/// `KVASER_CLOCK_HZ % (bitrate_hz * (1 + tseg1 + tseg2)) == 0`.
pub const KVASER_CLOCK_HZ: u32 = 80_000_000;

/// SJW upper bound for solver-derived timing.
pub const DEFAULT_SJW_CAP: u32 = 4;

/// Nominal bus parameters: (tseg1, tseg2, sjw, noSamp, syncMode).
#[derive(Debug, Clone, Copy, PartialEq, Eq, Structural)]
pub struct BusParams {
    pub tseg1: u32,
    pub tseg2: u32,
    pub sjw: u32,
    pub no_samp: u32,
    pub sync_mode: u32,
}

/// FD data-phase bus parameters: (tseg1, tseg2, sjw).
#[derive(Debug, Clone, Copy, PartialEq, Eq, Structural)]
pub struct BusParamsFd {
    pub tseg1: u32,
    pub tseg2: u32,
    pub sjw: u32,
}

/// `min(a, b)`.
pub open spec fn min_nat(a: nat, b: nat) -> nat {
    if a <= b {
        a
    } else {
        b
    }
}

/// The solver limits of a phase, with the weighted ranking: a candidate's
/// score is its sample-point error plus a thousandth per quantum of
/// distance from the preferred quanta count.
pub open spec fn kvaser_limits(phase: TimingPhase) -> PhaseLimits {
    weighted_limits(phase_limits(phase))
}

/// What the solver gives for a phase: `(tseg1, tseg2, sjw)` of the best
/// timing, SJW capped at 4 and at `tseg2`.
pub open spec fn solved_phase(bitrate: nat, pm: nat, phase: TimingPhase) -> Option<(nat, nat, nat)> {
    match best_timing(bitrate, pm, kvaser_limits(phase)) {
        None => None,
        Some((_, tseg1, tseg2)) => Some((tseg1, tseg2, min_nat(tseg2, DEFAULT_SJW_CAP as nat))),
    }
}

/// Solve for the phase timing at the 80 MHz Kvaser clock.
///
/// Returns `None` if `bitrate_hz` is zero, does not evenly divide 80 MHz,
/// or if no `(prescaler, total_tq)` factoring lands inside the
/// segment-length limits (phase segment 2 at least two quanta, which
/// CANlib accepts on every platform); otherwise the `(tseg1, tseg2, sjw)`
/// of the timing with the lowest score, the sample-point error plus 0.001
/// per quantum away from the preferred count (20 nominal, 10 data), the
/// fewest quanta among equal scores.
pub fn solve_phase_timing(bitrate_hz: u32, sample_point: SamplePoint, phase: TimingPhase) -> (r:
    Option<(u32, u32, u32)>)
    ensures
        match solved_phase(bitrate_hz as nat, sample_point.per_mille_spec() as nat, phase) {
            None => r is None,
            Some((tseg1, tseg2, sjw)) => r matches Some((a, b, c)) && a == tseg1 && b == tseg2
                && c == sjw,
        },
{
    let lim = phase.limits().with_weighted_ranking();
    let pm = sample_point.per_mille();
    match solve(bitrate_hz, pm, lim) {
        None => None,
        Some(t) => {
            let sjw = if t.tseg2 < DEFAULT_SJW_CAP {
                t.tseg2
            } else {
                DEFAULT_SJW_CAP
            };
            Some((t.tseg1, t.tseg2, sjw))
        },
    }
}

/// The message of a failed solve.
pub open spec fn no_timing_message(phase: TimingPhase, bitrate: nat, pm: nat) -> Seq<char> {
    "no Kvaser "@ + phase_name(phase) + " timing satisfies bitrate="@ + decimal(bitrate)
        + " Hz, sample_point="@ + per_mille_fraction(pm)
}

/// The error of a failed solve.
fn no_timing_error(phase: TimingPhase, bitrate_hz: u32, sample_point: SamplePoint) -> (r:
    KvaserError)
    ensures
        r matches KvaserError::UnsupportedTiming(msg) && msg@ == no_timing_message(
            phase,
            bitrate_hz as nat,
            sample_point.per_mille_spec() as nat,
        ),
{
    let mut msg = String::new();
    push_str(&mut msg, "no Kvaser ");
    push_str(&mut msg, phase.as_str());
    push_str(&mut msg, " timing satisfies bitrate=");
    push_decimal(&mut msg, bitrate_hz as u64);
    push_str(&mut msg, " Hz, sample_point=");
    push_per_mille_fraction(&mut msg, sample_point.per_mille());
    KvaserError::UnsupportedTiming(msg)
}

/// Solve the nominal-phase parameters, with one sample per bit and no
/// sync mode.
pub fn solve_nominal(bitrate_hz: u32, sample_point: SamplePoint) -> (r: Result<
    BusParams,
    KvaserError,
>)
    ensures
        match solved_phase(
            bitrate_hz as nat,
            sample_point.per_mille_spec() as nat,
            TimingPhase::Nominal,
        ) {
            None => r matches Err(KvaserError::UnsupportedTiming(msg)) && msg@ == no_timing_message(
                TimingPhase::Nominal,
                bitrate_hz as nat,
                sample_point.per_mille_spec() as nat,
            ),
            Some((tseg1, tseg2, sjw)) => r matches Ok(p) && p.tseg1 == tseg1 && p.tseg2 == tseg2
                && p.sjw == sjw && p.no_samp == 1 && p.sync_mode == 0,
        },
{
    match solve_phase_timing(bitrate_hz, sample_point, TimingPhase::Nominal) {
        None => Err(no_timing_error(TimingPhase::Nominal, bitrate_hz, sample_point)),
        Some((tseg1, tseg2, sjw)) => Ok(BusParams { tseg1, tseg2, sjw, no_samp: 1, sync_mode: 0 }),
    }
}

/// Solve the data-phase parameters.
pub fn solve_data(bitrate_hz: u32, sample_point: SamplePoint) -> (r: Result<
    BusParamsFd,
    KvaserError,
>)
    ensures
        match solved_phase(
            bitrate_hz as nat,
            sample_point.per_mille_spec() as nat,
            TimingPhase::Data,
        ) {
            None => r matches Err(KvaserError::UnsupportedTiming(msg)) && msg@ == no_timing_message(
                TimingPhase::Data,
                bitrate_hz as nat,
                sample_point.per_mille_spec() as nat,
            ),
            Some((tseg1, tseg2, sjw)) => r matches Ok(p) && p.tseg1 == tseg1 && p.tseg2 == tseg2
                && p.sjw == sjw,
        },
{
    match solve_phase_timing(bitrate_hz, sample_point, TimingPhase::Data) {
        None => Err(no_timing_error(TimingPhase::Data, bitrate_hz, sample_point)),
        Some((tseg1, tseg2, sjw)) => Ok(BusParamsFd { tseg1, tseg2, sjw }),
    }
}

/// The prescaler that gives `bitrate` with `tq` quanta per bit, if it is
/// an integer.
pub open spec fn prescaler_of(bitrate: nat, tq: nat) -> Option<nat> {
    let bit_time = bitrate * tq;
    if bit_time == 0 || KVASER_CLOCK_HZ as nat % bit_time != 0 {
        None
    } else {
        Some(KVASER_CLOCK_HZ as nat / bit_time)
    }
}

/// The message of a non-integer prescaler.
pub open spec fn prescaler_message(bitrate: nat, tq: nat) -> Seq<char> {
    "cannot achieve "@ + decimal(bitrate) + " Hz with "@ + decimal(tq) + " TQ at "@ + decimal(
        KVASER_CLOCK_HZ as nat,
    ) + " Hz clock (prescaler would be non-integer)"@
}

/// Derive the prescaler from the clock, bitrate and total time quanta.
pub fn compute_prescaler(bitrate_hz: u32, tq: u32) -> (r: Result<i32, KvaserError>)
    ensures
        match prescaler_of(bitrate_hz as nat, tq as nat) {
            Some(p) => r == Ok::<i32, KvaserError>(p as i32) && 1 <= p <= KVASER_CLOCK_HZ,
            None => r matches Err(KvaserError::UnsupportedTiming(msg)) && msg@ == prescaler_message(
                bitrate_hz as nat,
                tq as nat,
            ),
        },
{
    assert((bitrate_hz as u64) * (tq as u64) <= 0xffff_ffff * 0xffff_ffff) by (nonlinear_arith);
    let bit_time = (bitrate_hz as u64) * (tq as u64);
    if bit_time == 0 || (KVASER_CLOCK_HZ as u64) % bit_time != 0 {
        let mut msg = String::new();
        push_str(&mut msg, "cannot achieve ");
        push_decimal(&mut msg, bitrate_hz as u64);
        push_str(&mut msg, " Hz with ");
        push_decimal(&mut msg, tq as u64);
        push_str(&mut msg, " TQ at ");
        push_decimal(&mut msg, KVASER_CLOCK_HZ as u64);
        push_str(&mut msg, " Hz clock (prescaler would be non-integer)");
        return Err(KvaserError::UnsupportedTiming(msg));
    }
    proof {
        if bit_time > KVASER_CLOCK_HZ as u64 {
            assert((KVASER_CLOCK_HZ as u64) % bit_time == KVASER_CLOCK_HZ as u64) by (nonlinear_arith)
                requires
                    bit_time > KVASER_CLOCK_HZ as u64,
            ;
        }
        assert((KVASER_CLOCK_HZ as u64) / bit_time >= 1) by (nonlinear_arith)
            requires
                bit_time <= KVASER_CLOCK_HZ as u64,
                bit_time > 0,
        ;
        assert((KVASER_CLOCK_HZ as u64) / bit_time <= KVASER_CLOCK_HZ as u64) by (nonlinear_arith)
            requires
                bit_time > 0,
        ;
    }
    Ok(((KVASER_CLOCK_HZ as u64) / bit_time) as i32)
}

/// The time-quanta record of a phase: `1 + tseg1 + tseg2` quanta, no
/// propagation segment, and the prescaler for `bitrate` at that count.
pub open spec fn tq_record(bitrate: nat, tseg1: u32, tseg2: u32, sjw: u32) -> Option<KvBusParamsTq> {
    let tq = (1 + tseg1 + tseg2) as nat;
    match prescaler_of(bitrate, tq) {
        None => None,
        Some(p) => Some(
            KvBusParamsTq {
                tq: tq as i32,
                phase1: tseg1 as i32,
                phase2: tseg2 as i32,
                sjw: sjw as i32,
                prop: 0,
                prescaler: p as i32,
            },
        ),
    }
}

/// Build the record from segments; fails as `compute_prescaler` does.
fn to_tq(bitrate_hz: u32, tseg1: u32, tseg2: u32, sjw: u32) -> (r: Result<KvBusParamsTq, KvaserError>)
    requires
        1 + tseg1 + tseg2 <= u32::MAX,
    ensures
        match tq_record(bitrate_hz as nat, tseg1, tseg2, sjw) {
            Some(rec) => r == Ok::<KvBusParamsTq, KvaserError>(rec),
            None => r matches Err(KvaserError::UnsupportedTiming(msg)) && msg@ == prescaler_message(
                bitrate_hz as nat,
                (1 + tseg1 + tseg2) as nat,
            ),
        },
{
    let tq = 1 + tseg1 + tseg2;
    match compute_prescaler(bitrate_hz, tq) {
        Ok(prescaler) => Ok(
            KvBusParamsTq {
                tq: tq as i32,
                phase1: tseg1 as i32,
                phase2: tseg2 as i32,
                sjw: sjw as i32,
                prop: 0,
                prescaler,
            },
        ),
        Err(e) => Err(e),
    }
}

/// Convert nominal bus parameters and bitrate to a time-quanta record.
pub fn to_nominal_tq(bitrate_hz: u32, p: &BusParams) -> (r: Result<KvBusParamsTq, KvaserError>)
    requires
        1 + p.tseg1 + p.tseg2 <= u32::MAX,
    ensures
        match tq_record(bitrate_hz as nat, p.tseg1, p.tseg2, p.sjw) {
            Some(rec) => r == Ok::<KvBusParamsTq, KvaserError>(rec),
            None => r matches Err(KvaserError::UnsupportedTiming(msg)) && msg@ == prescaler_message(
                bitrate_hz as nat,
                (1 + p.tseg1 + p.tseg2) as nat,
            ),
        },
{
    to_tq(bitrate_hz, p.tseg1, p.tseg2, p.sjw)
}

/// Convert FD data-phase bus parameters and bitrate to a time-quanta record.
pub fn to_data_tq(bitrate_hz: u32, p: &BusParamsFd) -> (r: Result<KvBusParamsTq, KvaserError>)
    requires
        1 + p.tseg1 + p.tseg2 <= u32::MAX,
    ensures
        match tq_record(bitrate_hz as nat, p.tseg1, p.tseg2, p.sjw) {
            Some(rec) => r == Ok::<KvBusParamsTq, KvaserError>(rec),
            None => r matches Err(KvaserError::UnsupportedTiming(msg)) && msg@ == prescaler_message(
                bitrate_hz as nat,
                (1 + p.tseg1 + p.tseg2) as nat,
            ),
        },
{
    to_tq(bitrate_hz, p.tseg1, p.tseg2, p.sjw)
}

/// Decide on the status of `canSetBusParamsFdTq`: `Ok(false)` when it
/// succeeded, `Ok(true)` when the driver does not support it and the
/// legacy `canSetBusParams` + `canSetBusParamsFd` pair must be used
/// instead, and the CANlib error otherwise.
pub fn fd_tq_fallback(status: i32) -> (r: Result<bool, KvaserError>)
    ensures
        status >= 0 ==> r == Ok::<bool, KvaserError>(false),
        status == CAN_ERR_NOT_SUPPORTED ==> r == Ok::<bool, KvaserError>(true),
        status < 0 && status != CAN_ERR_NOT_SUPPORTED ==> r == Err::<bool, KvaserError>(
            KvaserError::Canlib(KvaserStatus(status)),
        ),
{
    if status >= 0 {
        Ok(false)
    } else if status == CAN_ERR_NOT_SUPPORTED {
        Ok(true)
    } else {
        Err(KvaserError::Canlib(KvaserStatus(status)))
    }
}

/// Both phases' time-quanta records for `canSetBusParamsFdTq`.
pub fn fd_tq_records(nominal_hz: u32, data_hz: u32, params: &BusParams, fd_params: &BusParamsFd) -> (r:
    Result<(KvBusParamsTq, KvBusParamsTq), KvaserError>)
    requires
        1 + params.tseg1 + params.tseg2 <= u32::MAX,
        1 + fd_params.tseg1 + fd_params.tseg2 <= u32::MAX,
    ensures
        match (
            tq_record(nominal_hz as nat, params.tseg1, params.tseg2, params.sjw),
            tq_record(data_hz as nat, fd_params.tseg1, fd_params.tseg2, fd_params.sjw),
        ) {
            (Some(n), Some(d)) => r == Ok::<(KvBusParamsTq, KvBusParamsTq), KvaserError>((n, d)),
            (None, _) => r matches Err(KvaserError::UnsupportedTiming(msg)) && msg@
                == prescaler_message(nominal_hz as nat, (1 + params.tseg1 + params.tseg2) as nat),
            (Some(_), None) => r matches Err(KvaserError::UnsupportedTiming(msg)) && msg@
                == prescaler_message(data_hz as nat, (1 + fd_params.tseg1 + fd_params.tseg2) as nat),
        },
{
    let n = match to_nominal_tq(nominal_hz, params) {
        Ok(n) => n,
        Err(e) => return Err(e),
    };
    let d = match to_data_tq(data_hz, fd_params) {
        Ok(d) => d,
        Err(e) => return Err(e),
    };
    Ok((n, d))
}

/// Whether explicit segments lie within a phase's limits: each segment at
/// least one quantum and at most the phase's maximum.
pub open spec fn segments_in_range(tseg1: u32, tseg2: u32, phase: TimingPhase) -> bool {
    let lim = phase_limits(phase);
    1 <= tseg1 <= lim.max_tseg1 && 1 <= tseg2 <= lim.max_tseg2
}

/// The message of explicit segments out of range.
pub open spec fn segments_message(phase: TimingPhase, tseg1: nat, tseg2: nat) -> Seq<char> {
    let lim = phase_limits(phase);
    "explicit "@ + phase_name(phase) + " segments tseg1="@ + decimal(tseg1) + ", tseg2="@
        + decimal(tseg2) + " outside tseg1 1..="@ + decimal(lim.max_tseg1 as nat) + ", tseg2 1..="@
        + decimal(lim.max_tseg2 as nat)
}

/// Check explicit segments against a phase's limits.
pub fn check_segments(tseg1: u32, tseg2: u32, phase: TimingPhase) -> (r: Result<(), KvaserError>)
    ensures
        r is Ok <==> segments_in_range(tseg1, tseg2, phase),
        r matches Err(e) ==> e matches KvaserError::UnsupportedTiming(msg) && msg@
            == segments_message(phase, tseg1 as nat, tseg2 as nat),
{
    let lim = phase.limits();
    if 1 <= tseg1 && tseg1 <= lim.max_tseg1 && 1 <= tseg2 && tseg2 <= lim.max_tseg2 {
        return Ok(());
    }
    let mut msg = String::new();
    push_str(&mut msg, "explicit ");
    push_str(&mut msg, phase.as_str());
    push_str(&mut msg, " segments tseg1=");
    push_decimal(&mut msg, tseg1 as u64);
    push_str(&mut msg, ", tseg2=");
    push_decimal(&mut msg, tseg2 as u64);
    push_str(&mut msg, " outside tseg1 1..=");
    push_decimal(&mut msg, lim.max_tseg1 as u64);
    push_str(&mut msg, ", tseg2 1..=");
    push_decimal(&mut msg, lim.max_tseg2 as u64);
    Err(KvaserError::UnsupportedTiming(msg))
}

/// The solver's timing always has an exact prescaler: converting it to a
/// time-quanta record succeeds, with the solver's prescaler.
pub proof fn lemma_solved_timing_has_prescaler(bitrate: nat, pm: nat, phase: TimingPhase)
    requires
        solved_phase(bitrate, pm, phase) is Some,
    ensures
        ({
            let (tseg1, tseg2, _) = solved_phase(bitrate, pm, phase)->Some_0;
            let (brp, _, _) = best_timing(bitrate, pm, kvaser_limits(phase))->Some_0;
            prescaler_of(bitrate, 1 + tseg1 + tseg2) == Some(brp)
        }),
{
    let lim = kvaser_limits(phase);
    lemma_best_timing_exact(bitrate, pm, lim);
    let (brp, tseg1, tseg2) = best_timing(bitrate, pm, lim)->Some_0;
    let tq: nat = 1 + tseg1 + tseg2;
    let bit_time = bitrate * tq;
    assert(brp * tq * bitrate == 80_000_000);
    assert(brp * bit_time == 80_000_000) by (nonlinear_arith)
        requires
            brp * tq * bitrate == 80_000_000,
            bit_time == bitrate * tq,
    ;
    assert(bit_time > 0 && 80_000_000nat % bit_time == 0 && 80_000_000nat / bit_time == brp)
        by (nonlinear_arith)
        requires
            brp * bit_time == 80_000_000,
            brp >= 1,
    {
        assert(bit_time > 0);
        vstd::arithmetic::div_mod::lemma_fundamental_div_mod_converse(
            80_000_000,
            bit_time as int,
            brp as int,
            0,
        );
    }
}

} // verus!
