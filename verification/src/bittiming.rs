//! Bit-timing search shared by the PCAN and KVASER backends.
//!
//! For a bitrate that divides the 80 MHz controller clock, every total
//! time-quanta count `tq` dividing the clock divisor gives a prescaler; the
//! sample point fixes `tseg1` (the nearest whole quantum, halves up), and
//! `tseg2` takes the rest. Among the candidates within the segment limits
//! the search keeps the best-ranked one, and among equally ranked ones the
//! one with the fewest quanta. Phase segment 2 keeps at least two quanta,
//! which every supported controller accepts.
//!
//! Two rankings are offered. The plain one (PCAN) ranks by closeness of
//! the sample point, then by nearness to the preferred `tq`. The weighted
//! one (KVASER) ranks by one score: the sample-point error plus a
//! thousandth per quantum of distance from the preferred `tq`.
//!
//! Scores are compared exactly, as fractions: the sample-point error of a
//! candidate with `tq` quanta is `|1000 * (1 + tseg1) - pm * tq|` over
//! `1000 * tq`, and the weighted score adds `dist * tq` to that numerator.

use vstd::prelude::*;

verus! {

/// The controller clock of the supported PCAN and KVASER adapters, in Hz.
pub const CLOCK_HZ: u32 = 80_000_000;

/// The fewest quanta phase segment 2 may have in a solved timing.
pub const MIN_TSEG2: u32 = 2;

/// Segment and prescaler limits, and the preferred total quanta, of one
/// phase (nominal or data) of a controller.
#[derive(Debug, Clone, Copy, PartialEq, Eq, Structural)]
pub struct PhaseLimits {
    pub max_tseg1: u32,
    pub max_tseg2: u32,
    pub max_brp: u32,
    pub preferred_tq: u32,
    /// Whether the distance from the preferred quanta count adds to the
    /// sample-point error (a thousandth per quantum) instead of only
    /// breaking ties.
    pub weighted: bool,
}

/// The limits are within what the solver handles: segments of at most
/// 256 + 128 quanta, a prescaler of at most 1024.
pub open spec fn limits_ok(lim: PhaseLimits) -> bool {
    &&& 1 <= lim.max_tseg1 <= 256
    &&& 1 <= lim.max_tseg2 <= 128
    &&& lim.max_brp <= 1024
    &&& lim.preferred_tq <= 1000
}

/// `1 + tseg1` for `t` total quanta at `pm` per mille: `t * pm / 1000`
/// rounded to the nearest integer, halves up.
pub open spec fn tseg1_plus_one(t: nat, pm: nat) -> nat {
    (t * pm + 500) / 1000
}

/// `|a - b|`.
pub open spec fn abs_diff(a: nat, b: nat) -> nat {
    if a >= b {
        (a - b) as nat
    } else {
        (b - a) as nat
    }
}

/// A candidate's rank: `err / (1000 * tq)` is its score and `dist` breaks
/// ties between equal scores.
pub struct Rank {
    pub err: nat,
    pub tq: nat,
    pub dist: nat,
}

/// The rank of the candidate with `t` quanta and `1 + tseg1 == t1p`. Plain:
/// the sample-point error, ties broken by the distance from the preferred
/// count. Weighted: the sample-point error plus a thousandth per quantum
/// of that distance, with no further tie-break.
pub open spec fn rank_of(t: nat, t1p: nat, pm: nat, preferred: nat, weighted: bool) -> Rank {
    let err = abs_diff(1000 * t1p, pm * t);
    let dist = abs_diff(t, preferred);
    if weighted {
        Rank { err: err + dist * t, tq: t, dist: 0 }
    } else {
        Rank { err, tq: t, dist }
    }
}

/// `a` ranks strictly better than `b`: a smaller score, or an equal one
/// and a smaller tie-break distance.
pub open spec fn better(a: Rank, b: Rank) -> bool {
    a.err * b.tq < b.err * a.tq || (a.err * b.tq == b.err * a.tq && a.dist < b.dist)
}

/// Ranking is a strict weak order: transitive, and a candidate ranked
/// below another ranks below all that one does not rank below.
proof fn lemma_better_order(a: Rank, b: Rank, c: Rank)
    requires
        a.tq > 0,
        b.tq > 0,
        c.tq > 0,
    ensures
        better(a, b) && better(b, c) ==> better(a, c),
        better(a, b) && !better(c, b) ==> better(a, c),
        !better(a, a),
{
    let (ea, ta, eb, tb, ec, tc) = (a.err as int, a.tq as int, b.err as int, b.tq as int, c.err as int, c.tq as int);
    assert(ea * tb < eb * ta && eb * tc < ec * tb ==> ea * tc < ec * ta) by (nonlinear_arith)
        requires
            ta > 0,
            tb > 0,
            tc > 0,
            ea >= 0,
            eb >= 0,
            ec >= 0,
    ;
    assert(ea * tb < eb * ta && eb * tc == ec * tb ==> ea * tc < ec * ta) by (nonlinear_arith)
        requires
            ta > 0,
            tb > 0,
            tc > 0,
            ea >= 0,
            eb >= 0,
            ec >= 0,
    ;
    assert(ea * tb == eb * ta && eb * tc < ec * tb ==> ea * tc < ec * ta) by (nonlinear_arith)
        requires
            ta > 0,
            tb > 0,
            tc > 0,
            ea >= 0,
            eb >= 0,
            ec >= 0,
    ;
    assert(ea * tb == eb * ta && eb * tc == ec * tb ==> ea * tc == ec * ta) by (nonlinear_arith)
        requires
            ta > 0,
            tb > 0,
            tc > 0,
            ea >= 0,
            eb >= 0,
            ec >= 0,
    ;
    assert(ea * tb < eb * ta && ec * tb < eb * tc ==> true);
    assert(ea * tb < eb * ta && ec * tb == eb * tc ==> ea * tc < ec * ta) by (nonlinear_arith)
        requires
            ta > 0,
            tb > 0,
            tc > 0,
            ea >= 0,
            eb >= 0,
            ec >= 0,
    ;
    assert(ea * tb == eb * ta && ec * tb > eb * tc ==> ea * tc < ec * ta) by (nonlinear_arith)
        requires
            ta > 0,
            tb > 0,
            tc > 0,
            ea >= 0,
            eb >= 0,
            ec >= 0,
    ;
    assert(ea * tb < eb * ta && ec * tb > eb * tc ==> ea * tc < ec * ta) by (nonlinear_arith)
        requires
            ta > 0,
            tb > 0,
            tc > 0,
            ea >= 0,
            eb >= 0,
            ec >= 0,
    ;
}

/// The candidate timing `(brp, tseg1, tseg2)` with `t` total quanta and
/// its rank, if it exists within the limits.
pub open spec fn candidate(bitrate: nat, pm: nat, lim: PhaseLimits, t: nat) -> Option<
    ((nat, nat, nat), Rank),
> {
    let div = CLOCK_HZ as nat / bitrate;
    if bitrate == 0 || CLOCK_HZ as nat % bitrate != 0 || t < 3 || t > 1 + lim.max_tseg1
        + lim.max_tseg2 || t > div || div % t != 0 {
        None
    } else {
        let brp = div / t;
        let t1p = tseg1_plus_one(t, pm);
        if brp == 0 || brp > lim.max_brp || t1p < 2 || t1p > lim.max_tseg1 + 1 || t1p + MIN_TSEG2
            > t || t - t1p > lim.max_tseg2 {
            None
        } else {
            Some(
                (
                    (brp, (t1p - 1) as nat, (t - t1p) as nat),
                    rank_of(t, t1p, pm, lim.preferred_tq as nat, lim.weighted),
                ),
            )
        }
    }
}

/// The candidate with `t` quanta exists and wins: no other candidate ranks
/// better, and every one with fewer quanta ranks worse.
pub open spec fn best_at(bitrate: nat, pm: nat, lim: PhaseLimits, t: nat) -> bool {
    &&& candidate(bitrate, pm, lim, t) is Some
    &&& forall|t2: nat|
        #[trigger] candidate(bitrate, pm, lim, t2) matches Some((_, r2)) ==> !better(
            r2,
            candidate(bitrate, pm, lim, t)->Some_0.1,
        ) && (t2 < t ==> better(candidate(bitrate, pm, lim, t)->Some_0.1, r2))
}

/// The winning candidate's `(brp, tseg1, tseg2)`, if there is one.
pub open spec fn best_timing(bitrate: nat, pm: nat, lim: PhaseLimits) -> Option<(nat, nat, nat)> {
    if exists|t: nat| best_at(bitrate, pm, lim, t) {
        Some(candidate(bitrate, pm, lim, choose|t: nat| best_at(bitrate, pm, lim, t))->Some_0.0)
    } else {
        None
    }
}

/// At most one candidate wins.
pub proof fn lemma_best_unique(bitrate: nat, pm: nat, lim: PhaseLimits, t1: nat, t2: nat)
    requires
        best_at(bitrate, pm, lim, t1),
        best_at(bitrate, pm, lim, t2),
    ensures
        t1 == t2,
{
    let c1 = candidate(bitrate, pm, lim, t1);
    let c2 = candidate(bitrate, pm, lim, t2);
    assert(!better(c2->Some_0.1, c1->Some_0.1));
    assert(!better(c1->Some_0.1, c2->Some_0.1));
}

/// The winning timing meets the bitrate exactly and lies within the
/// limits: `brp * (1 + tseg1 + tseg2) * bitrate` is the 80 MHz clock.
pub proof fn lemma_best_timing_exact(bitrate: nat, pm: nat, lim: PhaseLimits)
    requires
        best_timing(bitrate, pm, lim) is Some,
    ensures
        ({
            let (brp, tseg1, tseg2) = best_timing(bitrate, pm, lim)->Some_0;
            &&& brp * (1 + tseg1 + tseg2) * bitrate == CLOCK_HZ as nat
            &&& 1 <= brp <= lim.max_brp
            &&& 1 <= tseg1 <= lim.max_tseg1
            &&& MIN_TSEG2 <= tseg2 <= lim.max_tseg2
        }),
{
    let t = choose|t: nat| best_at(bitrate, pm, lim, t);
    assert(best_at(bitrate, pm, lim, t));
    let div = CLOCK_HZ as nat / bitrate;
    let brp = div / t;
    assert(brp * t == div) by (nonlinear_arith)
        requires
            div % t == 0,
            t >= 3,
            brp == div / t,
    ;
    assert(div * bitrate == CLOCK_HZ as nat) by (nonlinear_arith)
        requires
            CLOCK_HZ as nat % bitrate == 0,
            bitrate > 0,
            div == CLOCK_HZ as nat / bitrate,
    ;
}

/// The timing found: prescaler and the two phase segments, in quanta.
#[derive(Debug, Clone, Copy, PartialEq, Eq, Structural)]
pub struct PhaseTiming {
    pub brp: u32,
    pub tseg1: u32,
    pub tseg2: u32,
}

/// Search the timing for `bitrate_hz` at sample point `pm` per mille.
///
/// Returns `None` if the bitrate is zero, does not divide the clock, or no
/// candidate fits the limits. Otherwise the result is the best-ranked
/// candidate (see `rank_of`), then fewest quanta.
pub fn solve(bitrate_hz: u32, pm: u16, lim: PhaseLimits) -> (r: Option<PhaseTiming>)
    requires
        500 <= pm <= 950,
        limits_ok(lim),
    ensures
        (bitrate_hz == 0 || CLOCK_HZ % bitrate_hz != 0) ==> r is None,
        r is None <==> forall|t: nat| candidate(bitrate_hz as nat, pm as nat, lim, t) is None,
        r is None <==> best_timing(bitrate_hz as nat, pm as nat, lim) is None,
        r matches Some(x) ==> best_timing(bitrate_hz as nat, pm as nat, lim) == Some(
            (x.brp as nat, x.tseg1 as nat, x.tseg2 as nat),
        ),
{
    if bitrate_hz == 0 || CLOCK_HZ % bitrate_hz != 0 {
        return None;
    }
    let ghost b = bitrate_hz as nat;
    let ghost p = pm as nat;
    let divisor = CLOCK_HZ / bitrate_hz;
    let max_total = 1 + lim.max_tseg1 + lim.max_tseg2;
    // The best so far: its timing, quanta count, error numerator and distance.
    let mut best: Option<(PhaseTiming, u64, u64, u64)> = None;
    let mut t: u32 = 3;
    while t <= max_total && t <= divisor
        invariant
            3 <= t <= max_total + 1,
            max_total == 1 + lim.max_tseg1 + lim.max_tseg2,
            max_total <= 385,
            limits_ok(lim),
            bitrate_hz > 0,
            CLOCK_HZ % bitrate_hz == 0,
            divisor == CLOCK_HZ / bitrate_hz,
            500 <= pm <= 950,
            b == bitrate_hz as nat,
            p == pm as nat,
            match best {
                None => forall|t2: nat| t2 < t ==> #[trigger] candidate(b, p, lim, t2) is None,
                Some((x, bt, be, bd)) => {
                    &&& bt < t
                    &&& be <= 800_000
                    &&& candidate(b, p, lim, bt as nat) == Some(
                        (
                            (x.brp as nat, x.tseg1 as nat, x.tseg2 as nat),
                            Rank { err: be as nat, tq: bt as nat, dist: bd as nat },
                        ),
                    )
                    &&& forall|t2: nat|
                        #![trigger candidate(b, p, lim, t2)]
                        t2 < t ==> (candidate(b, p, lim, t2) matches Some((_, r2)) ==> !better(
                            r2,
                            Rank { err: be as nat, tq: bt as nat, dist: bd as nat },
                        ) && (t2 < bt ==> better(
                            Rank { err: be as nat, tq: bt as nat, dist: bd as nat },
                            r2,
                        )))
                },
            },
        decreases max_total + 1 - t,
    {
        let ghost tn = t as nat;
        if divisor % t != 0 {
            t = t + 1;
            continue;
        }
        let brp = divisor / t;
        if brp == 0 || brp > lim.max_brp {
            t = t + 1;
            continue;
        }
        proof {
            assert(t as u64 * pm as u64 <= 385 * 950) by (nonlinear_arith)
                requires
                    t <= 385,
                    pm <= 950,
            ;
        }
        let prod = t as u64 * pm as u64;
        let t1p_wide = (prod + 500) / 1000;
        let t1p = t1p_wide as u32;
        if t1p < 2 || t1p > lim.max_tseg1 + 1 || t1p + MIN_TSEG2 > t || t - t1p > lim.max_tseg2 {
            t = t + 1;
            continue;
        }
        let tseg1 = t1p - 1;
        let tseg2 = t - t1p;
        let scaled = 1000 * t1p as u64;
        let err: u64 = if scaled >= prod {
            scaled - prod
        } else {
            prod - scaled
        };
        let dist: u64 = if t >= lim.preferred_tq {
            (t - lim.preferred_tq) as u64
        } else {
            (lim.preferred_tq - t) as u64
        };
        proof {
            assert(dist as u64 * t as u64 <= 1000 * 385) by (nonlinear_arith)
                requires
                    dist <= 1000,
                    t <= 385,
            ;
        }
        let (err, dist) = if lim.weighted {
            (err + dist * t as u64, 0u64)
        } else {
            (err, dist)
        };
        let ghost rank = Rank { err: err as nat, tq: tn, dist: dist as nat };
        proof {
            assert(t1p == tseg1_plus_one(tn, p));
            assert(candidate(b, p, lim, tn) == Some(
                ((brp as nat, tseg1 as nat, tseg2 as nat), rank),
            ));
        }
        let better_here = match best {
            None => true,
            Some((_, bt, be, bd)) => {
                proof {
                    assert(err * bt <= 800_000 * 385) by (nonlinear_arith)
                        requires
                            err <= 800_000,
                            bt <= 385,
                    ;
                    assert(be * (t as u64) <= 800_000 * 385) by (nonlinear_arith)
                        requires
                            be <= 800_000,
                            t <= 385,
                    ;
                }
                err * bt < be * (t as u64) || (err * bt == be * (t as u64) && dist < bd)
            },
        };
        proof {
            if let Some((x, bt, be, bd)) = best {
                let old_rank = Rank { err: be as nat, tq: bt as nat, dist: bd as nat };
                assert(better_here == better(rank, old_rank));
                if better_here {
                    assert forall|t2: nat|
                        #![trigger candidate(b, p, lim, t2)]
                        t2 < tn + 1 implies (candidate(b, p, lim, t2) matches Some((_, r2))
                        ==> !better(r2, rank) && (t2 < tn ==> better(rank, r2))) by {
                        if let Some((_, r2)) = candidate(b, p, lim, t2) {
                            assert(r2.tq == t2 && t2 >= 3);
                            lemma_better_order(r2, rank, old_rank);
                            lemma_better_order(rank, old_rank, r2);
                            if t2 == tn {
                                lemma_better_order(rank, rank, rank);
                            } else if t2 == bt {
                            } else {
                            }
                        }
                    }
                } else {
                    assert(!better(rank, old_rank));
                }
            }
        }
        if better_here {
            best = Some((PhaseTiming { brp, tseg1, tseg2 }, t as u64, err, dist));
        }
        t = t + 1;
    }
    proof {
        assert forall|t2: nat| t2 >= t implies #[trigger] candidate(b, p, lim, t2) is None by {}
    }
    match best {
        None => {
            proof {
                assert forall|t2: nat| !best_at(b, p, lim, t2) by {
                    assert(candidate(b, p, lim, t2) is None);
                }
            }
            None
        },
        Some((x, bt, be, bd)) => {
            proof {
                assert(best_at(b, p, lim, bt as nat));
                let w = choose|t2: nat| best_at(b, p, lim, t2);
                lemma_best_unique(b, p, lim, w, bt as nat);
            }
            Some(x)
        },
    }
}


/// Nominal phase-1 segment limit, shared by the PCAN and KVASER timing
/// APIs.
pub const NOMINAL_MAX_TSEG1: u32 = 256;

/// Nominal phase-2 segment limit.
pub const NOMINAL_MAX_TSEG2: u32 = 128;

/// Data-phase phase-1 segment limit.
pub const DATA_MAX_TSEG1: u32 = 32;

/// Data-phase phase-2 segment limit.
pub const DATA_MAX_TSEG2: u32 = 16;

/// Prescaler limit of both phases.
pub const MAX_PRESCALER: u32 = 1024;

/// Preferred total time quanta of the nominal phase.
pub const PREFERRED_NOMINAL_TQ: u32 = 20;

/// Preferred total time quanta of the data phase.
pub const PREFERRED_DATA_TQ: u32 = 10;

/// The phase of a CAN FD bit that a timing is for.
#[derive(Debug, Clone, Copy, PartialEq, Eq, Structural)]
pub enum TimingPhase {
    Nominal,
    Data,
}

/// The name of a phase, as error messages show it.
pub open spec fn phase_name(phase: TimingPhase) -> Seq<char> {
    match phase {
        TimingPhase::Nominal => "nominal"@,
        TimingPhase::Data => "data"@,
    }
}

/// The solver limits of a phase, with the plain ranking.
pub open spec fn phase_limits(phase: TimingPhase) -> PhaseLimits {
    match phase {
        TimingPhase::Nominal => PhaseLimits {
            max_tseg1: NOMINAL_MAX_TSEG1,
            max_tseg2: NOMINAL_MAX_TSEG2,
            max_brp: MAX_PRESCALER,
            preferred_tq: PREFERRED_NOMINAL_TQ,
            weighted: false,
        },
        TimingPhase::Data => PhaseLimits {
            max_tseg1: DATA_MAX_TSEG1,
            max_tseg2: DATA_MAX_TSEG2,
            max_brp: MAX_PRESCALER,
            preferred_tq: PREFERRED_DATA_TQ,
            weighted: false,
        },
    }
}

/// The same limits with the weighted ranking.
pub open spec fn weighted_limits(lim: PhaseLimits) -> PhaseLimits {
    PhaseLimits { weighted: true, ..lim }
}

impl PhaseLimits {
    /// The same limits with the weighted ranking.
    pub fn with_weighted_ranking(self) -> (r: PhaseLimits)
        ensures
            r == weighted_limits(self),
    {
        PhaseLimits { weighted: true, ..self }
    }
}

impl TimingPhase {
    /// The phase's name.
    pub fn as_str(self) -> (r: &'static str)
        ensures
            r@ == phase_name(self),
    {
        match self {
            TimingPhase::Nominal => "nominal",
            TimingPhase::Data => "data",
        }
    }

    /// The solver limits of the phase.
    pub fn limits(self) -> (r: PhaseLimits)
        ensures
            r == phase_limits(self),
            limits_ok(r),
    {
        match self {
            TimingPhase::Nominal => PhaseLimits {
                max_tseg1: NOMINAL_MAX_TSEG1,
                max_tseg2: NOMINAL_MAX_TSEG2,
                max_brp: MAX_PRESCALER,
                preferred_tq: PREFERRED_NOMINAL_TQ,
                weighted: false,
            },
            TimingPhase::Data => PhaseLimits {
                max_tseg1: DATA_MAX_TSEG1,
                max_tseg2: DATA_MAX_TSEG2,
                max_brp: MAX_PRESCALER,
                preferred_tq: PREFERRED_DATA_TQ,
                weighted: false,
            },
        }
    }
}

} // verus!
