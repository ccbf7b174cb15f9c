//! Merging acceptance filters into CANlib's single (code, mask) per frame type.

use vstd::prelude::*;

use crate::filter::Filter;
use crate::kvaser::ffi::{
    CAN_FILTER_SET_CODE_EXT, CAN_FILTER_SET_CODE_STD, CAN_FILTER_SET_MASK_EXT, CAN_FILTER_SET_MASK_STD,
};

verus! {

/// One merge step: widen `(code, mask)` so it also covers filter `f`.
/// Only mask bits present in both and on which the codes agree are kept.
pub open spec fn merge_step(acc: Option<(u32, u32)>, f: Filter) -> Option<(u32, u32)> {
    let f_code = f.id.raw_value() & f.mask;
    match acc {
        None => Some((f_code, f.mask)),
        Some((c, m)) => {
            let new_mask = (m & f.mask) & !(c ^ f_code);
            Some((c & new_mask, new_mask))
        },
    }
}

/// Merge, in order, the filters whose `selected` flag is set.
pub open spec fn merge_selected(filters: Seq<Filter>, selected: Seq<bool>) -> Option<(u32, u32)>
    decreases filters.len(),
{
    if filters.len() == 0 {
        None
    } else {
        let prev = merge_selected(filters.drop_last(), selected.take(filters.len() - 1));
        if selected[filters.len() - 1] {
            merge_step(prev, filters.last())
        } else {
            prev
        }
    }
}

/// `x` passes a CANlib `(code, mask)` acceptance filter.
pub open spec fn accepts(code: u32, mask: u32, x: u32) -> bool {
    x & mask == code
}

proof fn lemma_widen_keeps_old(x: u32, c: u32, m: u32, fc: u32, fm: u32)
    by (bit_vector)
    requires
        x & m == c,
    ensures
        x & ((m & fm) & !(c ^ fc)) == c & ((m & fm) & !(c ^ fc)),
{
}

proof fn lemma_widen_covers_new(x: u32, c: u32, m: u32, fc: u32, fm: u32)
    by (bit_vector)
    requires
        x & fm == fc & fm,
    ensures
        x & ((m & fm) & !(c ^ (fc & fm))) == c & ((m & fm) & !(c ^ (fc & fm))),
{
}

proof fn lemma_first_covers(x: u32, fc: u32, fm: u32)
    by (bit_vector)
    requires
        x & fm == fc & fm,
    ensures
        x & fm == (fc & fm),
{
}

/// The merged filter never rejects an identifier that one of the merged
/// filters accepts (it may accept more), and exists exactly when at least
/// one filter was selected.
pub proof fn lemma_merge_never_underaccepts(filters: Seq<Filter>, selected: Seq<bool>)
    requires
        selected.len() == filters.len(),
    ensures
        merge_selected(filters, selected) is None <==> forall|i: int|
            0 <= i < filters.len() ==> !selected[i],
        merge_selected(filters, selected) matches Some((code, mask)) ==> forall|i: int, x: u32|
            0 <= i < filters.len() && selected[i] && #[trigger] filters[i].matches(x) ==> accepts(
                code,
                mask,
                x,
            ),
    decreases filters.len(),
{
    if filters.len() > 0 {
        let n = filters.len() - 1;
        let fs = filters.drop_last();
        let sel = selected.take(n);
        lemma_merge_never_underaccepts(fs, sel);
        let prev = merge_selected(fs, sel);
        let f = filters.last();
        let fc = f.id.raw_value();
        let fm = f.mask;
        assert forall|i: int| 0 <= i < n implies fs[i] == filters[i] && sel[i] == selected[i] by {}
        if selected[n] {
            match prev {
                None => {
                    assert forall|i: int, x: u32|
                        0 <= i < filters.len() && selected[i] && #[trigger] filters[i].matches(
                            x,
                        ) implies accepts(fc & fm, fm, x) by {
                        if i < n {
                            assert(!sel[i]);
                        } else {
                            lemma_first_covers(x, fc, fm);
                        }
                    }
                },
                Some((c, m)) => {
                    let new_mask = (m & fm) & !(c ^ (fc & fm));
                    assert forall|i: int, x: u32|
                        0 <= i < filters.len() && selected[i] && #[trigger] filters[i].matches(
                            x,
                        ) implies accepts(c & new_mask, new_mask, x) by {
                        if i < n {
                            assert(fs[i].matches(x));
                            lemma_widen_keeps_old(x, c, m, fc & fm, fm);
                        } else {
                            lemma_widen_covers_new(x, c, m, fc, fm);
                        }
                    }
                },
            }
        } else {
            assert forall|i: int, x: u32|
                0 <= i < filters.len() && selected[i] && #[trigger] filters[i].matches(x) implies (
                prev matches Some((code, mask)) && accepts(code, mask, x)) by {
                assert(i < n);
                assert(fs[i].matches(x));
            }
        }
    }
}

/// Compute the merged `(code, mask)` for all filters matching `predicate`.
/// Returns `None` if no filter matches.
///
/// CANlib supports one hardware filter per frame type, so several filters
/// are widened into a single `(code, mask)` that accepts every ID any of
/// them would. The merged filter may accept additional IDs but never fewer.
pub fn merge_filters<P: Fn(&Filter) -> bool>(filters: &[Filter], predicate: P) -> (r: Option<
    (u32, u32),
>)
    requires
        forall|f: &Filter| predicate.requires((f,)),
    ensures
        exists|selected: Seq<bool>|
            {
                &&& selected.len() == filters@.len()
                &&& forall|i: int|
                    0 <= i < filters@.len() ==> predicate.ensures(
                        (&filters@[i],),
                        #[trigger] selected[i],
                    )
                &&& r == merge_selected(filters@, selected)
            },
{
    let mut merged: Option<(u32, u32)> = None;
    let ghost mut selected: Seq<bool> = Seq::empty();
    let mut i: usize = 0;
    while i < filters.len()
        invariant
            i <= filters@.len(),
            selected.len() == i,
            forall|f: &Filter| predicate.requires((f,)),
            forall|j: int| 0 <= j < i ==> predicate.ensures((&filters@[j],), #[trigger] selected[j]),
            merged == merge_selected(filters@.take(i as int), selected),
        decreases filters@.len() - i,
    {
        let f = &filters[i];
        let pick = predicate(f);
        let ghost before = selected;
        proof {
            selected = selected.push(pick);
            assert(filters@.take(i + 1).drop_last() =~= filters@.take(i as int));
            assert(selected.take(i as int) =~= before);
            assert(filters@.take(i + 1).last() == filters@[i as int]);
        }
        if pick {
            let f_code = f.id.raw() & f.mask;
            merged = Some(
                match merged {
                    None => (f_code, f.mask),
                    Some((c, m)) => {
                        let new_mask = (m & f.mask) & !(c ^ f_code);
                        let new_code = c & new_mask;
                        (new_code, new_mask)
                    },
                },
            );
        }
        i = i + 1;
    }
    assert(filters@.take(filters@.len() as int) =~= filters@);
    merged
}

/// Which filters are of one kind (standard or extended).
pub open spec fn kind_selection(fs: Seq<Filter>, extended: bool) -> Seq<bool> {
    Seq::new(fs.len(), |i: int| (fs[i].id is Extended) == extended)
}

/// The merged `(code, mask)` of the filters of one kind.
pub fn merge_kind(filters: &[Filter], extended: bool) -> (r: Option<(u32, u32)>)
    ensures
        r == merge_selected(filters@, kind_selection(filters@, extended)),
{
    let r = if extended {
        merge_filters(filters, |f: &Filter| -> (b: bool)
            ensures
                b == (f.id is Extended),
            { f.id.is_extended() })
    } else {
        merge_filters(filters, |f: &Filter| -> (b: bool)
            ensures
                b == !(f.id is Extended),
            { f.id.is_standard() })
    };
    proof {
        let sel = choose|selected: Seq<bool>|
            {
                &&& selected.len() == filters@.len()
                &&& forall|i: int|
                    0 <= i < filters@.len() ==> #[trigger] selected[i] == ((filters@[i].id is Extended)
                        == extended)
                &&& r == merge_selected(filters@, selected)
            };
        assert(exists|selected: Seq<bool>|
            {
                &&& selected.len() == filters@.len()
                &&& forall|i: int|
                    0 <= i < filters@.len() ==> #[trigger] selected[i] == ((filters@[i].id is Extended)
                        == extended)
                &&& r == merge_selected(filters@, selected)
            });
        assert(sel =~= kind_selection(filters@, extended));
    }
    r
}

/// The `canAccept` calls, as `(value, flag)`, that apply `filters`: the
/// four that reset both frame kinds to accept-all, then, when there are
/// filters, the merged code and mask of each kind that has any.
pub open spec fn accept_plan(fs: Seq<Filter>) -> Seq<(u32, u32)> {
    let clear = seq![
        (0u32, CAN_FILTER_SET_CODE_STD),
        (0u32, CAN_FILTER_SET_MASK_STD),
        (0u32, CAN_FILTER_SET_CODE_EXT),
        (0u32, CAN_FILTER_SET_MASK_EXT),
    ];
    if fs.len() == 0 {
        clear
    } else {
        clear + (match merge_selected(fs, kind_selection(fs, false)) {
            None => Seq::<(u32, u32)>::empty(),
            Some((c, m)) => seq![(c, CAN_FILTER_SET_CODE_STD), (m, CAN_FILTER_SET_MASK_STD)],
        }) + (match merge_selected(fs, kind_selection(fs, true)) {
            None => Seq::<(u32, u32)>::empty(),
            Some((c, m)) => seq![(c, CAN_FILTER_SET_CODE_EXT), (m, CAN_FILTER_SET_MASK_EXT)],
        })
    }
}

/// The `canAccept` calls that apply `filters`, in order.
pub fn set_filters_plan(filters: &[Filter]) -> (r: Vec<(u32, u32)>)
    ensures
        r@ == accept_plan(filters@),
{
    let mut v: Vec<(u32, u32)> = Vec::new();
    v.push((0, CAN_FILTER_SET_CODE_STD));
    v.push((0, CAN_FILTER_SET_MASK_STD));
    v.push((0, CAN_FILTER_SET_CODE_EXT));
    v.push((0, CAN_FILTER_SET_MASK_EXT));
    if filters.len() == 0 {
        assert(v@ =~= accept_plan(filters@));
        return v;
    }
    match merge_kind(filters, false) {
        Some((c, m)) => {
            v.push((c, CAN_FILTER_SET_CODE_STD));
            v.push((m, CAN_FILTER_SET_MASK_STD));
        },
        None => {},
    }
    match merge_kind(filters, true) {
        Some((c, m)) => {
            v.push((c, CAN_FILTER_SET_CODE_EXT));
            v.push((m, CAN_FILTER_SET_MASK_EXT));
        },
        None => {},
    }
    assert(v@ =~= accept_plan(filters@));
    v
}

/// Where applying a plan of `canAccept` calls stands.
#[derive(Debug, Clone, Copy, PartialEq, Eq, Structural)]
pub enum FilterApply {
    /// The plan's call at this index is next.
    Applying(usize),
    /// A merged filter failed to apply; the reset call at this index is
    /// next.
    RollingBack(usize),
    /// Done: whether the filters are in place.
    Finished(bool),
}

/// The calls that reset both frame kinds to accept-all; every plan starts
/// with them.
pub open spec fn reset_calls() -> Seq<(u32, u32)> {
    accept_plan(Seq::empty())
}

/// The state is one applying a plan of `len` calls can be in.
pub open spec fn filter_apply_valid(s: FilterApply, len: nat) -> bool {
    match s {
        FilterApply::Applying(i) => i < len,
        FilterApply::RollingBack(n) => n < 4,
        FilterApply::Finished(_) => true,
    }
}

/// After the call due in `s` returned, successfully or not, with `len`
/// calls in the plan. A failed reset call ends the application with the
/// error. A failed merged filter leaves the channel reset to accept-all
/// rather than half-applied: the reset calls follow, best effort, until
/// one fails or all are made, and the application ends with the error.
pub open spec fn filter_apply_next_spec(s: FilterApply, len: nat, ok: bool) -> FilterApply {
    match s {
        FilterApply::Applying(i) => if ok {
            if i + 1 < len {
                FilterApply::Applying((i + 1) as usize)
            } else {
                FilterApply::Finished(true)
            }
        } else if i < 4 {
            FilterApply::Finished(false)
        } else {
            FilterApply::RollingBack(0)
        },
        FilterApply::RollingBack(n) => if ok && n + 1 < 4 {
            FilterApply::RollingBack((n + 1) as usize)
        } else {
            FilterApply::Finished(false)
        },
        FilterApply::Finished(_) => s,
    }
}

/// Applying a plan of `len` calls starts with its first call.
pub fn filter_apply_start(len: usize) -> (r: FilterApply)
    ensures
        r == (if len == 0 {
            FilterApply::Finished(true)
        } else {
            FilterApply::Applying(0)
        }),
        filter_apply_valid(r, len as nat),
{
    if len == 0 {
        FilterApply::Finished(true)
    } else {
        FilterApply::Applying(0)
    }
}

/// The state after the call due in `s` returned `ok`.
pub fn filter_apply_next(s: FilterApply, len: usize, ok: bool) -> (r: FilterApply)
    requires
        filter_apply_valid(s, len as nat),
    ensures
        r == filter_apply_next_spec(s, len as nat, ok),
        filter_apply_valid(r, len as nat),
{
    match s {
        FilterApply::Applying(i) => {
            if ok {
                if i + 1 < len {
                    FilterApply::Applying(i + 1)
                } else {
                    FilterApply::Finished(true)
                }
            } else if i < 4 {
                FilterApply::Finished(false)
            } else {
                FilterApply::RollingBack(0)
            }
        },
        FilterApply::RollingBack(n) => {
            if ok && n + 1 < 4 {
                FilterApply::RollingBack(n + 1)
            } else {
                FilterApply::Finished(false)
            }
        },
        FilterApply::Finished(_) => s,
    }
}

/// The `canAccept` call due in `s`, as `(value, flag)`: the plan's next
/// call, the next reset call, or none once finished.
pub fn filter_apply_call(plan: &Vec<(u32, u32)>, s: FilterApply) -> (r: Option<(u32, u32)>)
    requires
        filter_apply_valid(s, plan@.len()),
    ensures
        match s {
            FilterApply::Applying(i) => r == Some(plan@[i as int]),
            FilterApply::RollingBack(n) => r == Some(reset_calls()[n as int]),
            FilterApply::Finished(_) => r is None,
        },
{
    match s {
        FilterApply::Applying(i) => Some(plan[i]),
        FilterApply::RollingBack(n) => {
            let reset = [
                (0u32, CAN_FILTER_SET_CODE_STD),
                (0u32, CAN_FILTER_SET_MASK_STD),
                (0u32, CAN_FILTER_SET_CODE_EXT),
                (0u32, CAN_FILTER_SET_MASK_EXT),
            ];
            proof {
                assert(reset@ =~= reset_calls());
            }
            Some(reset[n])
        },
        FilterApply::Finished(_) => None,
    }
}

/// A plan always starts with the reset calls, so a failure in its first
/// four calls is a failed reset, and a failure after them a failed merged
/// filter.
pub proof fn lemma_plan_starts_with_reset(fs: Seq<Filter>)
    ensures
        accept_plan(fs).len() >= 4,
        accept_plan(fs).take(4) == reset_calls(),
{
    assert(accept_plan(fs).take(4) =~= reset_calls());
}

} // verus!
