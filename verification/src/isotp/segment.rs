//! How a message is cut into frames, and how frames are put back together.
//!
//! `segment` gives the CAN payloads (before padding) that a sender emits
//! for a message; `rx_run` is the receiver's reassembly over the payloads it
//! accepts. `lemma_reassembly_of_segmentation` proves that reassembling what
//! segmentation produced gives back the message.

use vstd::prelude::*;

use crate::isotp::frame::{
    cf_bytes, ff_bytes, ff_data_len, lemma_cf_roundtrip, lemma_ff_roundtrip, lemma_sf_roundtrip,
    pad_frame, parse_spec, sf_bytes, Pdu,
};

verus! {

/// Payload bytes one Consecutive Frame carries after the addressing prefix.
pub open spec fn cf_capacity(prefix: Seq<u8>) -> int {
    7 - prefix.len()
}

/// A message fits in a Single Frame.
pub open spec fn fits_single(prefix: Seq<u8>, n: nat) -> bool {
    n <= 7 - prefix.len()
}

/// The Consecutive Frames that carry `data[off..]`, starting with sequence
/// number `sn`.
pub open spec fn cf_frames(prefix: Seq<u8>, data: Seq<u8>, off: nat, sn: u8) -> Seq<Seq<u8>>
    decreases data.len() - off,
{
    if off >= data.len() || prefix.len() > 1 {
        Seq::empty()
    } else {
        let end = if off + cf_capacity(prefix) < data.len() {
            (off + cf_capacity(prefix)) as nat
        } else {
            data.len()
        };
        seq![prefix + cf_bytes(sn, data.subrange(off as int, end as int))] + cf_frames(
            prefix,
            data,
            end,
            ((sn + 1) % 16) as u8,
        )
    }
}

/// The frames (unpadded CAN payloads) that carry `data`: one Single Frame,
/// or a First Frame followed by Consecutive Frames numbered from 1 (mod 16).
pub open spec fn segment(prefix: Seq<u8>, data: Seq<u8>) -> Seq<Seq<u8>> {
    if fits_single(prefix, data.len()) {
        seq![prefix + sf_bytes(data)]
    } else {
        seq![prefix + ff_bytes(data, prefix.len() as int)] + cf_frames(
            prefix,
            data,
            ff_data_len(data.len(), prefix.len() as int) as nat,
            1,
        )
    }
}

/// Frames padded as the sender transmits them.
pub open spec fn pad_all(frames: Seq<Seq<u8>>, padding: Option<u8>) -> Seq<Seq<u8>> {
    frames.map_values(|f: Seq<u8>| pad_frame(f, padding))
}

/// Why reassembly stopped without a message.
#[derive(PartialEq, Eq, Structural)]
pub enum RxFailure {
    /// A frame could not be decoded.
    Invalid,
    /// A Consecutive Frame carried sequence number `got` where `expected` was due.
    Sequence { expected: u8, got: u8 },
}

/// The receiver's state.
pub enum RxState {
    /// Waiting for a Single Frame or First Frame.
    Idle,
    /// `got` of `total` bytes have arrived; `expected` is the next sequence
    /// number; `block` counts Consecutive Frames since the last Flow Control.
    Receiving { total: nat, got: Seq<u8>, expected: u8, block: nat },
    /// A message is complete.
    Done(Seq<u8>),
    /// Reassembly failed.
    Failed(RxFailure),
}

/// Reassembly has ended.
pub open spec fn rx_terminal(s: RxState) -> bool {
    s is Done || s is Failed
}

/// One receiver step on an accepted frame payload `b` (PCI at offset `o`),
/// with the receiver's configured block size `bs`. The flag says whether a
/// Flow Control (Continue To Send) is due.
///
/// Frames of an unexpected type are ignored; frames that do not decode end
/// reassembly. After a First Frame, and after every `bs` Consecutive Frames
/// (when `bs > 0`) while bytes remain, a Flow Control is due.
pub open spec fn rx_step(s: RxState, b: Seq<u8>, o: int, bs: u8) -> (RxState, bool) {
    match s {
        RxState::Idle => match parse_spec(b, o) {
            None => (RxState::Failed(RxFailure::Invalid), false),
            Some(Pdu::Single(d)) => (RxState::Done(d), false),
            Some(Pdu::First(total, d)) => (
                RxState::Receiving { total, got: d, expected: 1, block: 0 },
                true,
            ),
            Some(_) => (s, false),
        },
        RxState::Receiving { total, got, expected, block } => match parse_spec(b, o) {
            None => (RxState::Failed(RxFailure::Invalid), false),
            Some(Pdu::Consecutive(sn, d)) => if sn != expected {
                (RxState::Failed(RxFailure::Sequence { expected, got: sn }), false)
            } else {
                let take = if d.len() < total - got.len() {
                    d.len() as int
                } else {
                    total - got.len()
                };
                let got2 = got + d.take(take);
                let exp2 = ((expected + 1) % 16) as u8;
                if got2.len() >= total {
                    (RxState::Done(got2), false)
                } else if bs > 0 && block + 1 >= bs {
                    (RxState::Receiving { total, got: got2, expected: exp2, block: 0 }, true)
                } else if bs > 0 {
                    (
                        RxState::Receiving { total, got: got2, expected: exp2, block: block + 1 },
                        false,
                    )
                } else {
                    (RxState::Receiving { total, got: got2, expected: exp2, block: 0 }, false)
                }
            },
            Some(_) => (s, false),
        },
        _ => (s, false),
    }
}

/// Run the receiver over accepted frame payloads, in order, from state `s`.
/// Frames after the end of reassembly are not looked at.
pub open spec fn rx_run(s: RxState, frames: Seq<Seq<u8>>, o: int, bs: u8) -> RxState
    decreases frames.len(),
{
    if frames.len() == 0 {
        s
    } else {
        let prev = rx_run(s, frames.drop_last(), o, bs);
        if rx_terminal(prev) {
            prev
        } else {
            rx_step(prev, frames.last(), o, bs).0
        }
    }
}

/// How many Flow Control frames reassembly asks for over `frames`, in order,
/// starting from `s` (none after it has ended).
pub open spec fn rx_fc_count(s: RxState, frames: Seq<Seq<u8>>, o: int, bs: u8) -> nat
    decreases frames.len(),
{
    if frames.len() == 0 {
        0
    } else {
        let prev = rx_run(s, frames.drop_last(), o, bs);
        let k = rx_fc_count(s, frames.drop_last(), o, bs);
        if !rx_terminal(prev) && rx_step(prev, frames.last(), o, bs).1 {
            k + 1
        } else {
            k
        }
    }
}

/// Running over `a` then `b` is running over `a + b`.
pub proof fn lemma_rx_run_concat(s: RxState, a: Seq<Seq<u8>>, b: Seq<Seq<u8>>, o: int, bs: u8)
    ensures
        rx_run(s, a + b, o, bs) == rx_run(rx_run(s, a, o, bs), b, o, bs),
    decreases b.len(),
{
    if b.len() == 0 {
        assert(a + b =~= a);
    } else {
        assert((a + b).drop_last() =~= a + b.drop_last());
        assert((a + b).last() == b.last());
        lemma_rx_run_concat(s, a, b.drop_last(), o, bs);
    }
}

/// Running over a single frame is one step (unless already ended).
pub proof fn lemma_rx_run_one(s: RxState, b: Seq<u8>, o: int, bs: u8)
    ensures
        rx_run(s, seq![b], o, bs) == (if rx_terminal(s) {
            s
        } else {
            rx_step(s, b, o, bs).0
        }),
{
    assert(seq![b].drop_last() =~= Seq::<Seq<u8>>::empty());
    assert(seq![b].last() == b);
    reveal_with_fuel(rx_run, 2);
}

/// One more Consecutive Frame of the segmentation, then the rest of them.
pub proof fn lemma_cf_frames_unfold(prefix: Seq<u8>, data: Seq<u8>, off: nat, sn: u8)
    requires
        prefix.len() <= 1,
        off < data.len(),
    ensures
        ({
            let end = if off + cf_capacity(prefix) < data.len() {
                (off + cf_capacity(prefix)) as nat
            } else {
                data.len()
            };
            cf_frames(prefix, data, off, sn) == seq![
                prefix + cf_bytes(sn, data.subrange(off as int, end as int)),
            ] + cf_frames(prefix, data, end, ((sn + 1) % 16) as u8)
        }),
{
}

/// The receiver, part-way through a message whose first `off` bytes it
/// holds, reassembles the whole message from the remaining Consecutive
/// Frames of its segmentation.
proof fn lemma_rx_cf_frames(
    prefix: Seq<u8>,
    data: Seq<u8>,
    off: nat,
    sn: u8,
    block: nat,
    padding: Option<u8>,
    bs: u8,
)
    requires
        prefix.len() <= 1,
        off < data.len(),
        sn < 16,
    ensures
        rx_run(
            RxState::Receiving { total: data.len(), got: data.take(off as int), expected: sn, block },
            pad_all(cf_frames(prefix, data, off, sn), padding),
            prefix.len() as int,
            bs,
        ) == RxState::Done(data),
    decreases data.len() - off,
{
    let o = prefix.len() as int;
    let n = data.len();
    let cap = cf_capacity(prefix);
    let end = if off + cap < n {
        (off + cap) as nat
    } else {
        n
    };
    let chunk = data.subrange(off as int, end as int);
    let f0 = prefix + cf_bytes(sn, chunk);
    let sn2 = ((sn + 1) % 16) as u8;
    let rest = cf_frames(prefix, data, end, sn2);
    lemma_cf_frames_unfold(prefix, data, off, sn);
    assert(pad_all(cf_frames(prefix, data, off, sn), padding) =~= seq![pad_frame(f0, padding)]
        + pad_all(rest, padding));
    let s0 = RxState::Receiving { total: n, got: data.take(off as int), expected: sn, block };
    lemma_rx_run_concat(s0, seq![pad_frame(f0, padding)], pad_all(rest, padding), o, bs);
    lemma_rx_run_one(s0, pad_frame(f0, padding), o, bs);
    lemma_cf_roundtrip(prefix, sn, chunk, padding);
    let s1 = rx_run(s0, seq![pad_frame(f0, padding)], o, bs);
    assert(s1 == rx_step(s0, pad_frame(f0, padding), o, bs).0);
    if end == n {
        assert(rest =~= Seq::<Seq<u8>>::empty());
        match parse_spec(pad_frame(f0, padding), o) {
            Some(Pdu::Consecutive(s, d)) => {
                assert(data.take(off as int) + d.take(chunk.len() as int) =~= data);
            },
            _ => {},
        }
        assert(s1 == RxState::Done(data));
        assert(pad_all(rest, padding) =~= Seq::<Seq<u8>>::empty());
    } else {
        assert(f0.len() == 8);
        assert(pad_frame(f0, padding) == f0);
        lemma_cf_roundtrip(prefix, sn, chunk, None);
        assert(data.take(off as int) + chunk =~= data.take(end as int));
        let blk2 = if bs > 0 && block + 1 >= bs {
            0
        } else if bs > 0 {
            block + 1
        } else {
            0
        };
        assert(s1 == RxState::Receiving {
            total: n,
            got: data.take(end as int),
            expected: sn2,
            block: blk2 as nat,
        });
        lemma_rx_cf_frames(prefix, data, end, sn2, blk2 as nat, padding, bs);
    }
}

/// Every Consecutive Frame from `off` on starts with the addressing prefix.
proof fn lemma_cf_frames_start_with_prefix(prefix: Seq<u8>, data: Seq<u8>, off: nat, sn: u8)
    requires
        prefix.len() <= 1,
    ensures
        forall|i: int|
            0 <= i < cf_frames(prefix, data, off, sn).len() ==> prefix.len()
                <= #[trigger] cf_frames(prefix, data, off, sn)[i].len() && cf_frames(
                prefix,
                data,
                off,
                sn,
            )[i].take(prefix.len() as int) == prefix,
    decreases data.len() - off,
{
    if off < data.len() {
        let end = if off + cf_capacity(prefix) < data.len() {
            (off + cf_capacity(prefix)) as nat
        } else {
            data.len()
        };
        let sn2 = ((sn + 1) % 16) as u8;
        lemma_cf_frames_start_with_prefix(prefix, data, end, sn2);
        lemma_cf_frames_unfold(prefix, data, off, sn);
        let f0 = prefix + cf_bytes(sn, data.subrange(off as int, end as int));
        assert(f0.take(prefix.len() as int) =~= prefix);
        let cfs = cf_frames(prefix, data, off, sn);
        let rest = cf_frames(prefix, data, end, sn2);
        assert forall|i: int| 0 <= i < cfs.len() implies prefix.len() <= #[trigger] cfs[i].len()
            && cfs[i].take(prefix.len() as int) == prefix by {
            if i > 0 {
                assert(cfs[i] == rest[i - 1]);
            }
        }
    }
}

/// Every frame of the segmentation starts with the addressing prefix.
pub proof fn lemma_segment_starts_with_prefix(prefix: Seq<u8>, data: Seq<u8>)
    requires
        prefix.len() <= 1,
    ensures
        forall|i: int|
            0 <= i < segment(prefix, data).len() ==> prefix.len() <= #[trigger] segment(
                prefix,
                data,
            )[i].len() && segment(prefix, data)[i].take(prefix.len() as int) == prefix,
{
    let segs = segment(prefix, data);
    if fits_single(prefix, data.len()) {
        assert((prefix + sf_bytes(data)).take(prefix.len() as int) =~= prefix);
    } else {
        let k = ff_data_len(data.len(), prefix.len() as int) as nat;
        let cfs = cf_frames(prefix, data, k, 1);
        lemma_cf_frames_start_with_prefix(prefix, data, k, 1);
        let ff = prefix + ff_bytes(data, prefix.len() as int);
        assert(ff.take(prefix.len() as int) =~= prefix);
        assert forall|i: int| 0 <= i < segs.len() implies prefix.len() <= #[trigger] segs[i].len()
            && segs[i].take(prefix.len() as int) == prefix by {
            if i > 0 {
                assert(segs[i] == cfs[i - 1]);
            }
        }
    }
}

/// Reassembly inverts segmentation: a receiver that accepts, in order, the
/// (padded) frames a sender emits for `data` ends with exactly `data`,
/// whatever block size it announces.
pub proof fn lemma_reassembly_of_segmentation(
    prefix: Seq<u8>,
    data: Seq<u8>,
    padding: Option<u8>,
    bs: u8,
)
    requires
        prefix.len() <= 1,
        data.len() <= u32::MAX,
    ensures
        rx_run(RxState::Idle, pad_all(segment(prefix, data), padding), prefix.len() as int, bs)
            == RxState::Done(data),
{
    let o = prefix.len() as int;
    let frames = pad_all(segment(prefix, data), padding);
    if fits_single(prefix, data.len()) {
        lemma_sf_roundtrip(prefix, data, padding);
        assert(frames =~= seq![pad_frame(prefix + sf_bytes(data), padding)]);
        lemma_rx_run_one(RxState::Idle, pad_frame(prefix + sf_bytes(data), padding), o, bs);
    } else {
        let ff = prefix + ff_bytes(data, o);
        let k = ff_data_len(data.len(), o) as nat;
        let cfs = cf_frames(prefix, data, k, 1);
        assert(frames =~= seq![pad_frame(ff, padding)] + pad_all(cfs, padding));
        lemma_rx_run_concat(RxState::Idle, seq![pad_frame(ff, padding)], pad_all(cfs, padding), o, bs);
        lemma_rx_run_one(RxState::Idle, pad_frame(ff, padding), o, bs);
        lemma_ff_roundtrip(prefix, data, padding);
        lemma_rx_cf_frames(prefix, data, k, 1, 0, padding, bs);
    }
}

/// Flow Control requests over `a` then `b` are those over `a`, then those
/// over `b` from where `a` left reassembly.
pub proof fn lemma_rx_fc_count_concat(s: RxState, a: Seq<Seq<u8>>, b: Seq<Seq<u8>>, o: int, bs: u8)
    ensures
        rx_fc_count(s, a + b, o, bs) == rx_fc_count(s, a, o, bs) + rx_fc_count(
            rx_run(s, a, o, bs),
            b,
            o,
            bs,
        ),
    decreases b.len(),
{
    if b.len() == 0 {
        assert(a + b =~= a);
    } else {
        let b2 = b.drop_last();
        assert((a + b).drop_last() =~= a + b2);
        assert((a + b).last() == b.last());
        lemma_rx_fc_count_concat(s, a, b2, o, bs);
        lemma_rx_run_concat(s, a, b2, o, bs);
    }
}

/// Flow Control requests over a single frame: one exactly when reassembly,
/// still going, asks for it on that frame.
pub proof fn lemma_rx_fc_count_one(s: RxState, b: Seq<u8>, o: int, bs: u8)
    ensures
        rx_fc_count(s, seq![b], o, bs) == (if !rx_terminal(s) && rx_step(s, b, o, bs).1 {
            1nat
        } else {
            0nat
        }),
{
    assert(seq![b].drop_last() =~= Seq::<Seq<u8>>::empty());
    assert(seq![b].last() == b);
    assert(rx_run(s, Seq::<Seq<u8>>::empty(), o, bs) == s);
    assert(rx_fc_count(s, Seq::<Seq<u8>>::empty(), o, bs) == 0);
    reveal_with_fuel(rx_fc_count, 2);
}

/// Part-way through a message, with `block` Consecutive Frames counted
/// since the last Flow Control, the remaining `m` Consecutive Frames of the
/// segmentation get `(block + m - 1) / bs` Flow Control requests (none when
/// `bs == 0`): one after every `bs`-th frame of the block count, but none
/// after the last frame.
proof fn lemma_rx_fc_cf_frames(
    prefix: Seq<u8>,
    data: Seq<u8>,
    off: nat,
    sn: u8,
    block: nat,
    padding: Option<u8>,
    bs: u8,
)
    requires
        prefix.len() <= 1,
        off < data.len(),
        sn < 16,
        bs > 0 ==> block < bs,
        bs == 0 ==> block == 0,
    ensures
        ({
            let m = cf_frames(prefix, data, off, sn).len();
            &&& m >= 1
            &&& rx_fc_count(
                RxState::Receiving { total: data.len(), got: data.take(off as int), expected: sn, block },
                pad_all(cf_frames(prefix, data, off, sn), padding),
                prefix.len() as int,
                bs,
            ) == (if bs > 0 {
                ((block + m - 1) / (bs as int)) as nat
            } else {
                0nat
            })
        }),
    decreases data.len() - off,
{
    let o = prefix.len() as int;
    let n = data.len();
    let cap = cf_capacity(prefix);
    let end = if off + cap < n {
        (off + cap) as nat
    } else {
        n
    };
    let chunk = data.subrange(off as int, end as int);
    let f0 = prefix + cf_bytes(sn, chunk);
    let sn2 = ((sn + 1) % 16) as u8;
    let rest = cf_frames(prefix, data, end, sn2);
    lemma_cf_frames_unfold(prefix, data, off, sn);
    assert(pad_all(cf_frames(prefix, data, off, sn), padding) =~= seq![pad_frame(f0, padding)]
        + pad_all(rest, padding));
    let s0 = RxState::Receiving { total: n, got: data.take(off as int), expected: sn, block };
    lemma_rx_fc_count_concat(s0, seq![pad_frame(f0, padding)], pad_all(rest, padding), o, bs);
    lemma_rx_fc_count_one(s0, pad_frame(f0, padding), o, bs);
    lemma_rx_run_one(s0, pad_frame(f0, padding), o, bs);
    lemma_cf_roundtrip(prefix, sn, chunk, padding);
    let s1 = rx_run(s0, seq![pad_frame(f0, padding)], o, bs);
    assert(s1 == rx_step(s0, pad_frame(f0, padding), o, bs).0);
    if end == n {
        assert(rest =~= Seq::<Seq<u8>>::empty());
        match parse_spec(pad_frame(f0, padding), o) {
            Some(Pdu::Consecutive(s, d)) => {
                assert(data.take(off as int) + d.take(chunk.len() as int) =~= data);
            },
            _ => {},
        }
        assert(!rx_step(s0, pad_frame(f0, padding), o, bs).1);
        assert(pad_all(rest, padding) =~= Seq::<Seq<u8>>::empty());
        if bs > 0 {
            vstd::arithmetic::div_mod::lemma_basic_div(block as int, bs as int);
        }
    } else {
        assert(f0.len() == 8);
        assert(pad_frame(f0, padding) == f0);
        lemma_cf_roundtrip(prefix, sn, chunk, None);
        assert(data.take(off as int) + chunk =~= data.take(end as int));
        let blk2 = if bs > 0 && block + 1 >= bs {
            0
        } else if bs > 0 {
            block + 1
        } else {
            0
        };
        assert(s1 == RxState::Receiving {
            total: n,
            got: data.take(end as int),
            expected: sn2,
            block: blk2 as nat,
        });
        assert(rx_step(s0, pad_frame(f0, padding), o, bs).1 == (bs > 0 && block + 1 >= bs));
        lemma_rx_fc_cf_frames(prefix, data, end, sn2, blk2 as nat, padding, bs);
        let m2 = rest.len();
        if bs > 0 && block + 1 >= bs {
            vstd::arithmetic::div_mod::lemma_div_plus_one(m2 - 1, bs as int);
            assert(block + (m2 + 1) - 1 == bs + (m2 - 1));
        }
    }
}

/// Reassembly of a segmented message asks for Flow Control after its First
/// Frame and, with a block size `bs > 0`, after every `bs`-th Consecutive
/// Frame while bytes remain: over its `m` Consecutive Frames that is
/// `1 + (m - 1) / bs` requests; with `bs == 0`, only the first one.
pub proof fn lemma_fc_requests_of_segmentation(
    prefix: Seq<u8>,
    data: Seq<u8>,
    padding: Option<u8>,
    bs: u8,
)
    requires
        prefix.len() <= 1,
        data.len() <= u32::MAX,
        !fits_single(prefix, data.len()),
    ensures
        ({
            let m = segment(prefix, data).len() - 1;
            &&& m >= 1
            &&& rx_fc_count(
                RxState::Idle,
                pad_all(segment(prefix, data), padding),
                prefix.len() as int,
                bs,
            ) == (if bs > 0 {
                1 + (m - 1) / (bs as int)
            } else {
                1
            })
        }),
{
    let o = prefix.len() as int;
    let ff = prefix + ff_bytes(data, o);
    let k = ff_data_len(data.len(), o) as nat;
    let cfs = cf_frames(prefix, data, k, 1);
    let frames = pad_all(segment(prefix, data), padding);
    assert(frames =~= seq![pad_frame(ff, padding)] + pad_all(cfs, padding));
    lemma_rx_run_concat(RxState::Idle, seq![pad_frame(ff, padding)], pad_all(cfs, padding), o, bs);
    lemma_rx_fc_count_concat(
        RxState::Idle,
        seq![pad_frame(ff, padding)],
        pad_all(cfs, padding),
        o,
        bs,
    );
    lemma_rx_fc_count_one(RxState::Idle, pad_frame(ff, padding), o, bs);
    lemma_rx_run_one(RxState::Idle, pad_frame(ff, padding), o, bs);
    lemma_ff_roundtrip(prefix, data, padding);
    lemma_rx_cf_frames(prefix, data, k, 1, 0, padding, bs);
    assert(rx_run(RxState::Idle, seq![pad_frame(ff, padding)], o, bs) == RxState::Receiving {
        total: data.len(),
        got: data.take(k as int),
        expected: 1,
        block: 0,
    });
    lemma_rx_fc_cf_frames(prefix, data, k, 1, 0, padding, bs);
}

} // verus!
