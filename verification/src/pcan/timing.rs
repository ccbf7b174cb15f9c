//! PCAN bus timing: predefined classic bitrates, per-phase FD timing, the
//! solver's phase results and the `CAN_InitializeFD` timing string.

use vstd::prelude::*;

use crate::bittiming::{best_timing, phase_name, solve, TimingPhase};
use crate::pcan::error::PcanError;
use crate::pcan::ffi::{
    baud_of, btr_bitrate, handle_of, lemma_baud_constants_select_their_rate, PCAN_LANBUS1, PCAN_PCIBUS1, PCAN_USBBUS1, PCAN_BAUD_100K, PCAN_BAUD_10K, PCAN_BAUD_125K, PCAN_BAUD_1M, PCAN_BAUD_20K, PCAN_BAUD_250K,
    PCAN_BAUD_500K, PCAN_BAUD_50K, PCAN_BAUD_5K, PCAN_BAUD_800K,
};
use crate::text::{decimal, per_mille_fraction, push_decimal, push_per_mille_fraction, push_str};
use crate::timing::SamplePoint;

verus! {

/// PCAN-Basic controller clock in Hz.
///
/// All FD-capable PCAN devices use an 80 MHz CAN clock; an explicit
/// timing gives `bit_rate = PCAN_CLOCK_HZ / (brp * (1 + tseg1 + tseg2))`.
pub const PCAN_CLOCK_HZ: u32 = 80_000_000;

/// SJW upper bound for solver-derived timing.
pub const DEFAULT_SJW_CAP: u32 = 4;

/// Bus type for selecting a PCAN hardware family.
#[derive(Debug, Clone, Copy, PartialEq, Eq, Structural)]
#[non_exhaustive]
pub enum PcanBusType {
    Usb,
    Pci,
    Lan,
}

/// The bus-type code `pcan_handle` takes: 0 = USB, 1 = PCI, 2 = LAN.
pub open spec fn bus_code_of(bus_type: PcanBusType) -> u8 {
    match bus_type {
        PcanBusType::Usb => 0,
        PcanBusType::Pci => 1,
        PcanBusType::Lan => 2,
    }
}

impl PcanBusType {
    /// The bus-type code of the family.
    pub fn code(self) -> (r: u8)
        ensures
            r == bus_code_of(self),
    {
        match self {
            PcanBusType::Usb => 0,
            PcanBusType::Pci => 1,
            PcanBusType::Lan => 2,
        }
    }
}

/// Predefined classic-CAN bitrates supported by `CAN_Initialize`.
///
/// PCAN-Basic's classic-CAN init only accepts a fixed set of baud-rate
/// constants, so invalid bitrates are unrepresentable.
#[derive(Debug, Clone, Copy, PartialEq, Eq, Structural)]
#[non_exhaustive]
pub enum ClassicBitrate {
    Br1M,
    Br800K,
    Br500K,
    Br250K,
    Br125K,
    Br100K,
    Br50K,
    Br20K,
    Br10K,
    Br5K,
}

/// The `PCAN_BAUD_*` constant of a classic bitrate.
pub open spec fn baud_const_of(b: ClassicBitrate) -> u16 {
    match b {
        ClassicBitrate::Br1M => PCAN_BAUD_1M,
        ClassicBitrate::Br800K => PCAN_BAUD_800K,
        ClassicBitrate::Br500K => PCAN_BAUD_500K,
        ClassicBitrate::Br250K => PCAN_BAUD_250K,
        ClassicBitrate::Br125K => PCAN_BAUD_125K,
        ClassicBitrate::Br100K => PCAN_BAUD_100K,
        ClassicBitrate::Br50K => PCAN_BAUD_50K,
        ClassicBitrate::Br20K => PCAN_BAUD_20K,
        ClassicBitrate::Br10K => PCAN_BAUD_10K,
        ClassicBitrate::Br5K => PCAN_BAUD_5K,
    }
}

impl ClassicBitrate {
    /// The `PCAN_BAUD_*` constant `CAN_Initialize` takes.
    pub fn as_pcan(self) -> (r: u16)
        ensures
            r == baud_const_of(self),
    {
        match self {
            ClassicBitrate::Br1M => PCAN_BAUD_1M,
            ClassicBitrate::Br800K => PCAN_BAUD_800K,
            ClassicBitrate::Br500K => PCAN_BAUD_500K,
            ClassicBitrate::Br250K => PCAN_BAUD_250K,
            ClassicBitrate::Br125K => PCAN_BAUD_125K,
            ClassicBitrate::Br100K => PCAN_BAUD_100K,
            ClassicBitrate::Br50K => PCAN_BAUD_50K,
            ClassicBitrate::Br20K => PCAN_BAUD_20K,
            ClassicBitrate::Br10K => PCAN_BAUD_10K,
            ClassicBitrate::Br5K => PCAN_BAUD_5K,
        }
    }
}

/// The bitrate a classic bitrate stands for, in Hz.
pub open spec fn classic_hz(b: ClassicBitrate) -> u32 {
    match b {
        ClassicBitrate::Br1M => 1_000_000,
        ClassicBitrate::Br800K => 800_000,
        ClassicBitrate::Br500K => 500_000,
        ClassicBitrate::Br250K => 250_000,
        ClassicBitrate::Br125K => 125_000,
        ClassicBitrate::Br100K => 100_000,
        ClassicBitrate::Br50K => 50_000,
        ClassicBitrate::Br20K => 20_000,
        ClassicBitrate::Br10K => 10_000,
        ClassicBitrate::Br5K => 5_000,
    }
}

/// Each classic bitrate initialises the channel at its own bitrate: its
/// `PCAN_BAUD_*` constant is the one `bitrate_to_pcan` gives for its rate
/// in Hz, the bus timing it encodes runs at that rate, and distinct
/// bitrates get distinct constants.
pub proof fn lemma_classic_baud_matches_rate(b: ClassicBitrate, b2: ClassicBitrate)
    ensures
        baud_of(classic_hz(b)) == Some(baud_const_of(b)),
        btr_bitrate(baud_const_of(b)) == classic_hz(b),
        b != b2 ==> baud_const_of(b) != baud_const_of(b2),
{
    lemma_baud_constants_select_their_rate(classic_hz(b), classic_hz(b2));
}

/// Each bus type has its own run of channel handles: channel `i` (0 to
/// 15) is `PCAN_USBBUS1 + i` on USB, `PCAN_PCIBUS1 + i` on PCI and
/// `PCAN_LANBUS1 + i` on LAN, and distinct bus types or indices give
/// distinct handles.
pub proof fn lemma_bus_handles(bus: PcanBusType, i: u16, bus2: PcanBusType, i2: u16)
    requires
        i <= 15,
        i2 <= 15,
    ensures
        handle_of(bus_code_of(bus), i) == Some(
            (match bus {
                PcanBusType::Usb => PCAN_USBBUS1 + i,
                PcanBusType::Pci => PCAN_PCIBUS1 + i,
                PcanBusType::Lan => PCAN_LANBUS1 + i,
            }) as u16,
        ),
        bus != bus2 || i != i2 ==> handle_of(bus_code_of(bus), i) != handle_of(
            bus_code_of(bus2),
            i2,
        ),
{
}

/// Per-phase CAN FD timing parameters for the PCAN 80 MHz clock.
///
/// `bit_rate = 80_000_000 / (brp * (1 + tseg1 + tseg2))`,
/// `sample_point = (1 + tseg1) / (1 + tseg1 + tseg2)`.
#[derive(Debug, Clone, Copy, PartialEq, Eq, Structural)]
pub struct PcanPhaseTiming {
    pub brp: u32,
    pub tseg1: u32,
    pub tseg2: u32,
    pub sjw: u32,
}

/// Hardware-level CAN FD timing for both phases at the PCAN 80 MHz clock.
#[derive(Debug, Clone, Copy, PartialEq, Eq, Structural)]
pub struct PcanFdTiming {
    pub nominal: PcanPhaseTiming,
    pub data: PcanPhaseTiming,
}

/// The timing string `CAN_InitializeFD` takes.
pub open spec fn timing_string(t: PcanFdTiming) -> Seq<char> {
    "f_clock_mhz=80, nom_brp="@ + decimal(t.nominal.brp as nat) + ", nom_tseg1="@ + decimal(
        t.nominal.tseg1 as nat,
    ) + ", nom_tseg2="@ + decimal(t.nominal.tseg2 as nat) + ", nom_sjw="@ + decimal(
        t.nominal.sjw as nat,
    ) + ", data_brp="@ + decimal(t.data.brp as nat) + ", data_tseg1="@ + decimal(
        t.data.tseg1 as nat,
    ) + ", data_tseg2="@ + decimal(t.data.tseg2 as nat) + ", data_sjw="@ + decimal(
        t.data.sjw as nat,
    )
}

impl PcanFdTiming {
    /// Render the timing as the `CAN_InitializeFD` string.
    pub fn to_pcan_string(self) -> (r: String)
        ensures
            r@ == timing_string(self),
    {
        let mut s = String::new();
        push_str(&mut s, "f_clock_mhz=80, nom_brp=");
        push_decimal(&mut s, self.nominal.brp as u64);
        push_str(&mut s, ", nom_tseg1=");
        push_decimal(&mut s, self.nominal.tseg1 as u64);
        push_str(&mut s, ", nom_tseg2=");
        push_decimal(&mut s, self.nominal.tseg2 as u64);
        push_str(&mut s, ", nom_sjw=");
        push_decimal(&mut s, self.nominal.sjw as u64);
        push_str(&mut s, ", data_brp=");
        push_decimal(&mut s, self.data.brp as u64);
        push_str(&mut s, ", data_tseg1=");
        push_decimal(&mut s, self.data.tseg1 as u64);
        push_str(&mut s, ", data_tseg2=");
        push_decimal(&mut s, self.data.tseg2 as u64);
        push_str(&mut s, ", data_sjw=");
        push_decimal(&mut s, self.data.sjw as u64);
        s
    }
}

/// `min(a, b)`.
pub open spec fn min_nat(a: nat, b: nat) -> nat {
    if a <= b {
        a
    } else {
        b
    }
}

/// What the solver gives for a phase: the best timing, with SJW capped
/// at 4 and at both segments (ISO 11898-1 requires `SJW <= min(tseg1,
/// tseg2)`).
pub open spec fn solved_pcan_phase(bitrate: nat, pm: nat, phase: TimingPhase) -> Option<(nat, nat, nat, nat)> {
    match best_timing(bitrate, pm, crate::bittiming::phase_limits(phase)) {
        None => None,
        Some((brp, tseg1, tseg2)) => Some(
            (brp, tseg1, tseg2, min_nat(min_nat(tseg1, tseg2), DEFAULT_SJW_CAP as nat)),
        ),
    }
}

/// The timing `t` is the solver's result `(brp, tseg1, tseg2, sjw)`.
pub open spec fn is_solution(t: PcanPhaseTiming, s: (nat, nat, nat, nat)) -> bool {
    t.brp == s.0 && t.tseg1 == s.1 && t.tseg2 == s.2 && t.sjw == s.3
}

/// Solve for a single phase of FD timing at the PCAN 80 MHz clock.
///
/// Searches for an exact-bitrate `(brp, tseg1, tseg2)` whose sample point
/// is closest to the requested one, ties broken by proximity to the
/// phase's preferred time-quanta count. Returns `None` if the bitrate is
/// zero, does not divide 80 MHz, or no factoring fits the limits.
pub fn solve_phase_timing(bitrate_hz: u32, sample_point: SamplePoint, phase: TimingPhase) -> (r:
    Option<PcanPhaseTiming>)
    ensures
        match solved_pcan_phase(bitrate_hz as nat, sample_point.per_mille_spec() as nat, phase) {
            None => r is None,
            Some(s) => r matches Some(t) && is_solution(t, s),
        },
{
    let lim = phase.limits();
    let pm = sample_point.per_mille();
    match solve(bitrate_hz, pm, lim) {
        None => None,
        Some(t) => {
            let m = if t.tseg1 < t.tseg2 {
                t.tseg1
            } else {
                t.tseg2
            };
            let sjw = if m < DEFAULT_SJW_CAP {
                m
            } else {
                DEFAULT_SJW_CAP
            };
            Some(PcanPhaseTiming { brp: t.brp, tseg1: t.tseg1, tseg2: t.tseg2, sjw })
        },
    }
}

/// The message of a failed solve.
pub open spec fn no_pcan_timing_message(phase: TimingPhase, bitrate: nat, pm: nat) -> Seq<char> {
    "no PCAN FD "@ + phase_name(phase) + " timing satisfies bitrate="@ + decimal(bitrate)
        + " Hz, sample_point="@ + per_mille_fraction(pm)
}

/// Solve a phase, with the error `connect` reports when nothing fits.
pub fn solve_phase_or_error(bitrate_hz: u32, sample_point: SamplePoint, phase: TimingPhase) -> (r:
    Result<PcanPhaseTiming, PcanError>)
    ensures
        match solved_pcan_phase(bitrate_hz as nat, sample_point.per_mille_spec() as nat, phase) {
            None => r matches Err(PcanError::UnsupportedTiming(m)) && m@ == no_pcan_timing_message(
                phase,
                bitrate_hz as nat,
                sample_point.per_mille_spec() as nat,
            ),
            Some(s) => r matches Ok(t) && is_solution(t, s),
        },
{
    match solve_phase_timing(bitrate_hz, sample_point, phase) {
        Some(t) => Ok(t),
        None => {
            let mut m = String::new();
            push_str(&mut m, "no PCAN FD ");
            push_str(&mut m, phase.as_str());
            push_str(&mut m, " timing satisfies bitrate=");
            push_decimal(&mut m, bitrate_hz as u64);
            push_str(&mut m, " Hz, sample_point=");
            push_per_mille_fraction(&mut m, sample_point.per_mille());
            Err(PcanError::UnsupportedTiming(m))
        },
    }
}

} // verus!
