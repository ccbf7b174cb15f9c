//! PCAN range filters and bus-status decoding.
//!
//! PCAN-Basic filters by identifier range (`from_id..=to_id`), not by
//! mask. Each mask filter becomes the smallest range that covers every
//! identifier it matches, and the filters of one kind are merged into the
//! smallest range covering all of theirs. The result may accept more
//! identifiers than the filters (when a mask has zero bits below set ones),
//! never fewer.

use vstd::prelude::*;

use crate::bus::{saturate_counter, clamp_counter, BusState, ErrorCounters};
use crate::filter::Filter;
use crate::id::{CanId, EXTENDED_MAX, STANDARD_MAX};
use crate::pcan::ffi::{
    PCAN_ERROR_BUSHEAVY, PCAN_ERROR_BUSOFF, PCAN_ERROR_BUSPASSIVE, PCAN_ERROR_OK,
    PCAN_MODE_EXTENDED, PCAN_MODE_STANDARD,
};

verus! {

/// The largest identifier of a filter's kind.
pub open spec fn max_id_of(extended: bool) -> u32 {
    if extended {
        EXTENDED_MAX
    } else {
        STANDARD_MAX as u32
    }
}

/// The range `(from, to, extended)` that a mask filter covers.
pub open spec fn range_of(f: Filter) -> (u32, u32, bool) {
    let ext = f.id is Extended;
    let max_id = max_id_of(ext);
    let mask = f.mask & max_id;
    let from = f.id.raw_value() & mask;
    (from, from | (!mask & max_id), ext)
}

/// Convert a mask-based filter to a range `(from_id, to_id, is_extended)`.
///
/// For a filter with `id = X` and `mask = M`, the matching identifiers are
/// those with `(id & M) == (X & M)`; the least is `X & M` and the greatest
/// `(X & M) | (!M & max_id)`.
pub fn mask_to_range(filter: &Filter) -> (r: (u32, u32, bool))
    ensures
        r == range_of(*filter),
{
    let is_extended = filter.id.is_extended();
    let max_id: u32 = if is_extended {
        0x1FFF_FFFF
    } else {
        0x7FF
    };
    let raw_id = filter.id.raw();
    let mask = filter.mask & max_id;
    let from = raw_id & mask;
    let to = from | (!mask & max_id);
    (from, to, is_extended)
}

/// Every identifier of the filter's kind that the filter matches lies in
/// its range, and the range's ends are identifiers of that kind.
pub proof fn lemma_range_covers(f: Filter, x: u32)
    ensures
        ({
            let (from, to, ext) = range_of(f);
            &&& from <= to <= max_id_of(ext)
            &&& (x <= max_id_of(ext) && f.matches(x)) ==> from <= x <= to
        }),
{
    let ext = f.id is Extended;
    let max_id = max_id_of(ext);
    let m = f.mask;
    let raw = f.id.raw_value();
    assert(max_id == 0x7ff || max_id == 0x1fff_ffff);
    assert((max_id == 0x7ffu32 || max_id == 0x1fff_ffffu32) ==> {
        let mm = m & max_id;
        let from = raw & mm;
        let to = from | (!mm & max_id);
        &&& from <= to
        &&& to <= max_id
        &&& (x <= max_id && x & m == raw & m) ==> (from <= x && x <= to)
    }) by (bit_vector);
}

/// The range is the smallest that covers the filter: for a valid
/// identifier, both of its ends are identifiers the filter matches.
pub proof fn lemma_range_tight(f: Filter)
    requires
        f.id.valid(),
    ensures
        f.matches(range_of(f).0),
        f.matches(range_of(f).1),
{
    let ext = f.id is Extended;
    let max_id = max_id_of(ext);
    let m = f.mask;
    let raw = f.id.raw_value();
    assert(raw <= max_id);
    assert((max_id == 0x7ffu32 || max_id == 0x1fff_ffffu32) && raw <= max_id ==> {
        let mm = m & max_id;
        let from = raw & mm;
        let to = from | (!mm & max_id);
        &&& from & m == raw & m
        &&& to & m == raw & m
    }) by (bit_vector);
}

/// `min(a, b)` and `max(a, b)`.
pub open spec fn min_u32(a: u32, b: u32) -> u32 {
    if a <= b {
        a
    } else {
        b
    }
}

pub open spec fn max_u32(a: u32, b: u32) -> u32 {
    if a >= b {
        a
    } else {
        b
    }
}

/// The merged range of the filters of one kind in `fs`, if there is one.
pub open spec fn merged_range(fs: Seq<Filter>, extended: bool) -> Option<(u32, u32)>
    decreases fs.len(),
{
    if fs.len() == 0 {
        None
    } else {
        let acc = merged_range(fs.drop_last(), extended);
        let (from, to, ext) = range_of(fs.last());
        if ext != extended {
            acc
        } else {
            match acc {
                None => Some((from, to)),
                Some((a, b)) => Some((min_u32(a, from), max_u32(b, to))),
            }
        }
    }
}

/// The merged range never under-accepts: every identifier that some
/// filter of the kind matches lies in it.
pub proof fn lemma_merged_range_covers(fs: Seq<Filter>, extended: bool, i: int, x: u32)
    requires
        0 <= i < fs.len(),
        (fs[i].id is Extended) == extended,
        x <= max_id_of(extended),
        fs[i].matches(x),
    ensures
        merged_range(fs, extended) matches Some((from, to)) && from <= x <= to,
    decreases fs.len(),
{
    let acc = merged_range(fs.drop_last(), extended);
    lemma_range_covers(fs.last(), x);
    if i < fs.len() - 1 {
        assert(fs.drop_last()[i] == fs[i]);
        lemma_merged_range_covers(fs.drop_last(), extended, i, x);
    }
}

/// The merged range admits only identifiers of the kind: both ends lie in
/// `0..=max_id`.
pub proof fn lemma_merged_range_in_bounds(fs: Seq<Filter>, extended: bool)
    ensures
        merged_range(fs, extended) matches Some((from, to)) ==> from <= to <= max_id_of(extended),
    decreases fs.len(),
{
    if fs.len() > 0 {
        lemma_merged_range_in_bounds(fs.drop_last(), extended);
        lemma_range_covers(fs.last(), 0);
    }
}

/// One `CAN_FilterMessages` call: `(from_id, to_id, mode)`.
pub type RangeFilter = (u32, u32, u8);

/// The `CAN_FilterMessages` calls that apply `filters`: with no filters,
/// the two accept-all ranges; otherwise the merged standard range, then
/// the merged extended range, each when some filter is of that kind.
pub open spec fn filter_plan(fs: Seq<Filter>) -> Seq<RangeFilter> {
    if fs.len() == 0 {
        accept_all_plan()
    } else {
        (match merged_range(fs, false) {
            None => Seq::<RangeFilter>::empty(),
            Some((a, b)) => seq![(a, b, PCAN_MODE_STANDARD)],
        }) + (match merged_range(fs, true) {
            None => Seq::<RangeFilter>::empty(),
            Some((a, b)) => seq![(a, b, PCAN_MODE_EXTENDED)],
        })
    }
}

/// The calls that accept every identifier of both kinds.
pub open spec fn accept_all_plan() -> Seq<RangeFilter> {
    seq![(0u32, STANDARD_MAX as u32, PCAN_MODE_STANDARD), (0u32, EXTENDED_MAX, PCAN_MODE_EXTENDED)]
}

/// The calls that clear all filters.
pub fn clear_plan() -> (r: Vec<RangeFilter>)
    ensures
        r@ == accept_all_plan(),
{
    let mut v: Vec<RangeFilter> = Vec::new();
    v.push((0x000, 0x7FF, PCAN_MODE_STANDARD));
    v.push((0x0000_0000, 0x1FFF_FFFF, PCAN_MODE_EXTENDED));
    v
}

/// The calls that apply `filters`, in order.
pub fn set_filters_plan(filters: &[Filter]) -> (r: Vec<RangeFilter>)
    ensures
        r@ == filter_plan(filters@),
{
    if filters.len() == 0 {
        return clear_plan();
    }
    let mut std_range: Option<(u32, u32)> = None;
    let mut ext_range: Option<(u32, u32)> = None;
    let mut i: usize = 0;
    while i < filters.len()
        invariant
            i <= filters@.len(),
            std_range == merged_range(filters@.take(i as int), false),
            ext_range == merged_range(filters@.take(i as int), true),
        decreases filters@.len() - i,
    {
        let (from, to, is_extended) = mask_to_range(&filters[i]);
        proof {
            assert(filters@.take(i + 1).drop_last() =~= filters@.take(i as int));
            assert(filters@.take(i + 1).last() == filters@[i as int]);
        }
        if is_extended {
            ext_range = match ext_range {
                None => Some((from, to)),
                Some((a, b)) => Some((if a <= from { a } else { from }, if b >= to { b } else { to })),
            };
        } else {
            std_range = match std_range {
                None => Some((from, to)),
                Some((a, b)) => Some((if a <= from { a } else { from }, if b >= to { b } else { to })),
            };
        }
        i = i + 1;
    }
    assert(filters@.take(filters@.len() as int) =~= filters@);
    let mut v: Vec<RangeFilter> = Vec::new();
    match std_range {
        Some((a, b)) => v.push((a, b, PCAN_MODE_STANDARD)),
        None => {},
    }
    let ghost mid = v@;
    match ext_range {
        Some((a, b)) => v.push((a, b, PCAN_MODE_EXTENDED)),
        None => {},
    }
    assert(v@ =~= filter_plan(filters@));
    v
}

/// The bus state a `CAN_GetStatus` code reports.
pub open spec fn bus_state_of_status(status: u32) -> BusState {
    if status & PCAN_ERROR_BUSOFF != 0 {
        BusState::BusOff
    } else if status & PCAN_ERROR_BUSPASSIVE != 0 || status & PCAN_ERROR_BUSHEAVY != 0 {
        BusState::ErrorPassive
    } else {
        BusState::ErrorActive
    }
}

/// Decode a `CAN_GetStatus` code: bus-off wins, then bus-passive or
/// bus-heavy is error-passive; OK and bus-light are error-active.
pub fn bus_state_from_status(status: u32) -> (r: BusState)
    ensures
        r == bus_state_of_status(status),
{
    if status & PCAN_ERROR_BUSOFF != 0 {
        BusState::BusOff
    } else if status & PCAN_ERROR_BUSPASSIVE != 0 || status & PCAN_ERROR_BUSHEAVY != 0 {
        BusState::ErrorPassive
    } else {
        BusState::ErrorActive
    }
}

/// The error counters from two `CAN_GetValue` reads: each read's value
/// saturated to 255 when its status is OK, else 0 (the hardware does not
/// support it).
pub fn counters_from_reads(status_rx: u32, rx: u32, status_tx: u32, tx: u32) -> (r: ErrorCounters)
    ensures
        r.receive == (if status_rx == PCAN_ERROR_OK {
            saturate_counter(rx)
        } else {
            0u8
        }),
        r.transmit == (if status_tx == PCAN_ERROR_OK {
            saturate_counter(tx)
        } else {
            0u8
        }),
{
    ErrorCounters {
        receive: if status_rx == PCAN_ERROR_OK {
            clamp_counter(rx)
        } else {
            0
        },
        transmit: if status_tx == PCAN_ERROR_OK {
            clamp_counter(tx)
        } else {
            0
        },
    }
}

} // verus!
