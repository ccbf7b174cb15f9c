//! Synchronous ISO-TP transport over a CAN channel.

use vstd::prelude::*;

use crate::channel::{Receive, Transmit};
use crate::frame::CanFrame;
use crate::id::CanId;
use crate::isotp::config::{accepts_ta, overhead_of, tx_prefix_of, AddressingMode, IsoTpConfig};
use crate::isotp::error::IsoTpError;
use crate::isotp::frame::{
    build_fc, build_sf, fc_bytes, pad, pad_frame, parse, parse_spec, sf_bytes, FcFlag, IsoTpFrame,
    Pdu,
};
use crate::isotp::reassembler::{Reassembler, RxOutcome};
use crate::isotp::segment::{
    fits_single, lemma_fc_requests_of_segmentation, lemma_reassembly_of_segmentation,
    lemma_segment_starts_with_prefix, pad_all, rx_fc_count, rx_run,
    rx_step, rx_terminal, segment, RxFailure, RxState,
};
use crate::isotp::session::{SendSession, SendStep};
use crate::time::{
    checked_deadline, duration_from_micros, duration_is_zero, micros_duration, now,
    saturating_since, Duration, Instant,
};

verus! {

/// The separation time an STmin byte asks for, in microseconds:
/// 0x00–0x7F are milliseconds, 0xF1–0xF9 are 100–900 µs, and the reserved
/// values count as the longest valid one, 127 ms.
pub open spec fn st_min_micros_spec(st_min: u8) -> u32 {
    if st_min <= 0x7F {
        (st_min as u32 * 1000) as u32
    } else if 0xF1 <= st_min <= 0xF9 {
        ((st_min - 0xF0) * 100) as u32
    } else {
        127000u32
    }
}

/// The separation time an STmin byte asks for, in microseconds.
pub fn st_min_micros(st_min: u8) -> (r: u32)
    ensures
        r == st_min_micros_spec(st_min),
        r == 0 <==> st_min == 0,
{
    if st_min <= 0x7F {
        st_min as u32 * 1000
    } else if 0xF1 <= st_min && st_min <= 0xF9 {
        (st_min as u32 - 0xF0) * 100
    } else {
        127000
    }
}

/// The separation time an STmin byte asks for.
pub fn interpret_st_min(st_min: u8) -> (r: Duration)
    ensures
        r == micros_duration(st_min_micros_spec(st_min) as u64),
{
    duration_from_micros(st_min_micros(st_min) as u64)
}

/// One exchange with the CAN channel, as the ISO-TP channel records it.
pub enum BusEvent<E> {
    /// A frame, as identifier and payload, handed to `transmit`, and what
    /// `transmit` returned.
    Transmitted(CanId, Seq<u8>, Result<(), E>),
    /// A frame, as identifier and payload, that `receive_timeout` returned.
    Received(CanId, Seq<u8>),
    /// An error that `receive_timeout` returned.
    ReceiveFailed(E),
}

/// What an ISO-TP call reports for a channel `transmit` outcome: success,
/// or the channel's own error inside `CanError`.
pub open spec fn can_result<E>(res: Result<(), E>) -> Result<(), IsoTpError<E>> {
    match res {
        Ok(()) => Ok(()),
        Err(e) => Err(IsoTpError::CanError(e)),
    }
}

/// `after` is `before` and one more transmission of `(id, d)`, whose
/// outcome `r` reports.
pub open spec fn one_transmission<E>(
    before: Seq<BusEvent<E>>,
    after: Seq<BusEvent<E>>,
    id: CanId,
    d: Seq<u8>,
    r: Result<(), IsoTpError<E>>,
) -> bool {
    &&& after.len() == before.len() + 1
    &&& after.drop_last() == before
    &&& after.last() matches BusEvent::Transmitted(i, x, res) && i == id && x == d && r
        == can_result(res)
}

/// The frames received, as identifier and payload, among `evs`, in order.
pub open spec fn received_frames<E>(evs: Seq<BusEvent<E>>) -> Seq<(CanId, Seq<u8>)>
    decreases evs.len(),
{
    if evs.len() == 0 {
        Seq::empty()
    } else {
        let prev = received_frames(evs.drop_last());
        match evs.last() {
            BusEvent::Received(id, d) => prev.push((id, d)),
            _ => prev,
        }
    }
}

/// One more event adds its frame to the received ones if it received one.
proof fn lemma_received_frames_push<E>(evs: Seq<BusEvent<E>>, ev: BusEvent<E>)
    ensures
        received_frames(evs.push(ev)) == match ev {
            BusEvent::Received(id, d) => received_frames(evs).push((id, d)),
            _ => received_frames(evs),
        },
{
    assert(evs.push(ev).drop_last() =~= evs);
}

/// The exchange broke off: its last event is a failed transmission or a
/// failed read.
pub open spec fn exchange_failed<E>(evs: Seq<BusEvent<E>>) -> bool {
    evs.len() > 0 && (evs.last() matches BusEvent::Transmitted(_, _, Err(_))
        || evs.last() is ReceiveFailed)
}

/// The CAN error an exchange broke off with.
pub open spec fn broke_off_with<E>(evs: Seq<BusEvent<E>>, e: E) -> bool {
    evs.len() > 0 && (evs.last() == BusEvent::<E>::ReceiveFailed(e) || (evs.last() matches BusEvent::Transmitted(_, _, Err(x)) && x == e))
}

/// Only reads: every event received a frame, but a failed read may end
/// the exchange.
pub open spec fn reads_only<E>(evs: Seq<BusEvent<E>>) -> bool {
    forall|i: int|
        0 <= i < evs.len() ==> #[trigger] evs[i] is Received || (i == evs.len() - 1
            && evs[i] is ReceiveFailed)
}

/// Synchronous ISO-TP transport channel wrapping a CAN channel.
pub struct IsoTpChannel<C: Transmit> {
    channel: C,
    config: IsoTpConfig,
    sent: Ghost<Seq<(CanId, Seq<u8>)>>,
    events: Ghost<Seq<BusEvent<<C as Transmit>::Error>>>,
    received: Ghost<Seq<(CanId, Seq<u8>)>>,
}

impl<C: Transmit> IsoTpChannel<C> {
    /// The configuration in use.
    pub closed spec fn config_spec(self) -> IsoTpConfig {
        self.config
    }

    /// The wrapped CAN channel.
    pub closed spec fn channel_spec(self) -> C {
        self.channel
    }

    /// The frames, as identifier and payload, handed to the CAN channel's
    /// `transmit` so far, in order.
    pub closed spec fn sent_spec(self) -> Seq<(CanId, Seq<u8>)> {
        self.sent@
    }

    /// Every exchange with the CAN channel so far, in order: frames
    /// transmitted with their outcomes, frames received, failed reads.
    pub closed spec fn events_spec(self) -> Seq<BusEvent<<C as Transmit>::Error>> {
        self.events@
    }

    /// The frames, as identifier and payload, the CAN channel's
    /// `receive_timeout` has returned so far, in order.
    pub closed spec fn received_spec(self) -> Seq<(CanId, Seq<u8>)> {
        self.received@
    }

    /// Create a new ISO-TP channel around a CAN channel with the given config.
    pub fn new(channel: C, config: IsoTpConfig) -> (r: Self)
        ensures
            r.channel_spec() == channel,
            r.config_spec() == config,
            r.sent_spec() == Seq::<(CanId, Seq<u8>)>::empty(),
            r.events_spec() == Seq::<BusEvent<<C as Transmit>::Error>>::empty(),
            r.received_spec() == Seq::<(CanId, Seq<u8>)>::empty(),
    {
        IsoTpChannel {
            channel,
            config,
            sent: Ghost(Seq::empty()),
            events: Ghost(Seq::empty()),
            received: Ghost(Seq::empty()),
        }
    }

    /// Consume this ISO-TP channel and return the inner CAN channel.
    pub fn into_inner(self) -> (r: C)
        ensures
            r == self.channel_spec(),
    {
        self.channel
    }

    /// The configuration in use.
    pub fn config(&self) -> (r: &IsoTpConfig)
        ensures
            *r == self.config_spec(),
    {
        &self.config
    }
}

/// A frame, as accepted by the receive paths: from our RX ID and, with
/// extended addressing, carrying our target address.
pub open spec fn accepted_frame(config: IsoTpConfig, id: CanId, data: Seq<u8>) -> bool {
    id == config.rx_id && accepts_ta(config.addressing, data)
}

/// The payloads of the frames in `log` that the receive paths accept, in
/// order.
pub open spec fn accepted_payloads(config: IsoTpConfig, log: Seq<(CanId, Seq<u8>)>) -> Seq<
    Seq<u8>,
>
    decreases log.len(),
{
    if log.len() == 0 {
        Seq::empty()
    } else {
        let prev = accepted_payloads(config, log.drop_last());
        if accepted_frame(config, log.last().0, log.last().1) {
            prev.push(log.last().1)
        } else {
            prev
        }
    }
}

/// Appending a frame to the log appends its payload when it is accepted.
pub proof fn lemma_accepted_push(config: IsoTpConfig, log: Seq<(CanId, Seq<u8>)>, f: (CanId, Seq<u8>))
    ensures
        accepted_payloads(config, log.push(f)) == if accepted_frame(config, f.0, f.1) {
            accepted_payloads(config, log).push(f.1)
        } else {
            accepted_payloads(config, log)
        },
{
    assert(log.push(f).drop_last() =~= log);
}

/// The part of `log` after its first `n` entries grows by `f` when `f` is
/// appended, and the first `n` entries stay.
proof fn lemma_log_push<A>(log: Seq<A>, n: int, f: A)
    requires
        0 <= n <= log.len(),
    ensures
        log.push(f).skip(n) == log.skip(n).push(f),
        log.push(f).take(n) == log.take(n),
{
    assert(log.push(f).skip(n) =~= log.skip(n).push(f));
    assert(log.push(f).take(n) =~= log.take(n));
}

/// The Flow Control (Continue To Send) frame the receive path transmits,
/// announcing the configured block size and STmin.
pub open spec fn fc_cts_frame(config: IsoTpConfig) -> (CanId, Seq<u8>) {
    fc_frame(config, FcFlag::ContinueToSend)
}

/// The Flow Control frame with `flag` that our side transmits, announcing
/// the configured block size and STmin.
pub open spec fn fc_frame(config: IsoTpConfig, flag: FcFlag) -> (CanId, Seq<u8>) {
    (
        config.tx_id,
        pad_frame(
            tx_prefix_of(config.addressing) + fc_bytes(flag, config.block_size, config.st_min),
            config.padding,
        ),
    )
}

/// `n` copies of frame `f`.
pub open spec fn repeated(f: (CanId, Seq<u8>), n: nat) -> Seq<(CanId, Seq<u8>)> {
    Seq::new(n, |_i: int| f)
}

/// The frames, as identifier and payload, that go on the wire for the
/// given (unpadded) frame payloads: each padded as configured, on the TX ID.
pub open spec fn on_wire(config: IsoTpConfig, frames: Seq<Seq<u8>>) -> Seq<(CanId, Seq<u8>)> {
    frames.map_values(|f: Seq<u8>| (config.tx_id, pad_frame(f, config.padding)))
}

/// One more frame payload puts one more frame on the wire.
pub proof fn lemma_on_wire_push(config: IsoTpConfig, frames: Seq<Seq<u8>>, f: Seq<u8>)
    ensures
        on_wire(config, frames.push(f)) == on_wire(config, frames).push(
            (config.tx_id, pad_frame(f, config.padding)),
        ),
{
    assert(on_wire(config, frames.push(f)) =~= on_wire(config, frames).push(
        (config.tx_id, pad_frame(f, config.padding)),
    ));
}

/// What `receive` returns, given where reassembly over the frames it took
/// in stands: the message once it is complete, the failure once it failed,
/// and a timeout or a channel error only while it is still going.
pub open spec fn receive_outcome<E>(s: RxState, r: Result<Vec<u8>, IsoTpError<E>>) -> bool {
    match r {
        Ok(v) => s == RxState::Done(v@),
        Err(IsoTpError::InvalidFrame) => s == RxState::Failed(RxFailure::Invalid),
        Err(IsoTpError::SequenceError { expected, got }) => s == RxState::Failed(
            RxFailure::Sequence { expected, got },
        ),
        Err(IsoTpError::Timeout) => !rx_terminal(s),
        Err(IsoTpError::CanError(_)) => !rx_terminal(s),
        _ => false,
    }
}

/// A Flow Control is owed after `evs`: its last event received a frame that
/// we accept and that reassembly, over the frames accepted before it,
/// answers with Flow Control.
pub open spec fn fc_due<E>(config: IsoTpConfig, evs: Seq<BusEvent<E>>, o: int, bs: u8) -> bool {
    evs.len() > 0 && match evs.last() {
        BusEvent::Received(id, d) => accepted_frame(config, id, d) && {
            let s = rx_run(
                RxState::Idle,
                accepted_payloads(config, received_frames(evs.drop_last())),
                o,
                bs,
            );
            !rx_terminal(s) && rx_step(s, d, o, bs).1
        },
        _ => false,
    }
}

/// `evs` is how `receive` talks to the channel: frames are read one by
/// one; right after a frame that reassembly answers with Flow Control, and
/// before anything more is read, the Flow Control (Continue To Send) frame
/// is transmitted, and nothing else is; nothing follows a failed
/// transmission or a failed read.
pub open spec fn rx_trace<E>(config: IsoTpConfig, evs: Seq<BusEvent<E>>, o: int, bs: u8) -> bool
    decreases evs.len(),
{
    if evs.len() == 0 {
        true
    } else {
        let prev = evs.drop_last();
        &&& rx_trace(config, prev, o, bs)
        &&& !exchange_failed(prev)
        &&& if fc_due(config, prev, o, bs) {
            evs.last() matches BusEvent::Transmitted(id, d, _) && (id, d) == fc_cts_frame(config)
        } else {
            !(evs.last() is Transmitted)
        }
    }
}

/// A sender and a receiver agree on addressing: both normal, or both
/// extended with the sender's target address the one the receiver takes.
pub open spec fn addressing_matches(tx: AddressingMode, rx: AddressingMode) -> bool {
    match (tx, rx) {
        (AddressingMode::Normal, AddressingMode::Normal) => true,
        (
            AddressingMode::Extended { tx_target_address, .. },
            AddressingMode::Extended { rx_target_address, .. },
        ) => tx_target_address == rx_target_address,
        _ => false,
    }
}

/// A receiver whose RX ID is the sender's TX ID, and whose addressing
/// matches, accepts every frame the sender puts on the wire.
proof fn lemma_accepts_all_sent(tx: IsoTpConfig, rx: IsoTpConfig, frames: Seq<Seq<u8>>)
    requires
        rx.rx_id == tx.tx_id,
        forall|i: int|
            0 <= i < frames.len() ==> accepts_ta(
                rx.addressing,
                #[trigger] pad_frame(frames[i], tx.padding),
            ),
    ensures
        accepted_payloads(rx, on_wire(tx, frames)) == pad_all(frames, tx.padding),
    decreases frames.len(),
{
    if frames.len() > 0 {
        let init = frames.drop_last();
        assert forall|i: int| 0 <= i < init.len() implies accepts_ta(
            rx.addressing,
            #[trigger] pad_frame(init[i], tx.padding),
        ) by {
            assert(init[i] == frames[i]);
        }
        lemma_accepts_all_sent(tx, rx, init);
        let w = on_wire(tx, frames);
        assert(w.drop_last() =~= on_wire(tx, init));
        assert(w.last() == (tx.tx_id, pad_frame(frames.last(), tx.padding)));
        assert(accepts_ta(rx.addressing, pad_frame(frames[frames.len() - 1], tx.padding)));
        assert(pad_all(frames, tx.padding) =~= pad_all(init, tx.padding).push(
            pad_frame(frames.last(), tx.padding),
        ));
    }
}

/// A message sent is received intact: when the frames a receiving channel
/// (configured by `rx`) takes in during `receive` are exactly those a
/// sending channel (configured by `tx`) put on the wire for `data`, with
/// the receiver's RX ID the sender's TX ID and their addressing matching,
/// `receive` returns `Ok(data)`, whatever the padding and block sizes.
pub proof fn lemma_sent_message_is_received<E>(
    tx: IsoTpConfig,
    rx: IsoTpConfig,
    data: Seq<u8>,
    r: Result<Vec<u8>, IsoTpError<E>>,
)
    requires
        rx.rx_id == tx.tx_id,
        addressing_matches(tx.addressing, rx.addressing),
        data.len() <= u32::MAX,
        receive_outcome(
            rx_run(
                RxState::Idle,
                accepted_payloads(rx, on_wire(tx, segment(tx_prefix_of(tx.addressing), data))),
                overhead_of(rx.addressing) as int,
                rx.block_size,
            ),
            r,
        ),
    ensures
        r matches Ok(v) && v@ == data,
{
    let prefix = tx_prefix_of(tx.addressing);
    let frames = segment(prefix, data);
    lemma_segment_starts_with_prefix(prefix, data);
    assert forall|i: int| 0 <= i < frames.len() implies accepts_ta(
        rx.addressing,
        #[trigger] pad_frame(frames[i], tx.padding),
    ) by {
        let f = frames[i];
        assert(prefix.len() <= f.len() && f.take(prefix.len() as int) == prefix);
        match rx.addressing {
            AddressingMode::Normal => {},
            AddressingMode::Extended { .. } => {
                assert(f.take(1)[0] == f[0]);
                assert(pad_frame(f, tx.padding)[0] == f[0]);
            },
        }
    }
    lemma_accepts_all_sent(tx, rx, frames);
    lemma_reassembly_of_segmentation(prefix, data, tx.padding, rx.block_size);
}

/// A finished send has put exactly its message's segmentation on the
/// wire: when the frames a channel sent since a session began are the
/// session's frames on the wire (as `begin_send` starts and every
/// `send_step` keeps them), and the session has finished, they are the
/// segmentation of the message, padded as configured, on the TX ID.
pub proof fn lemma_finished_send_is_segmentation(
    config: IsoTpConfig,
    session: SendSession,
    base: Seq<(CanId, Seq<u8>)>,
    sent: Seq<(CanId, Seq<u8>)>,
)
    requires
        session.wf(),
        session.phase_spec() is Finished,
        sent == base + on_wire(config, session.sent_spec()),
    ensures
        sent == base + on_wire(config, segment(session.prefix_spec(), session.data_spec())),
{
    session.lemma_finished_sent_all();
}

/// What a send step that transmitted reports for the channel's outcome.
pub open spec fn step_result<E>(res: Result<(), E>) -> Result<SendProgress, IsoTpError<E>> {
    match res {
        Ok(()) => Ok(SendProgress::Continue),
        Err(e) => Err(IsoTpError::CanError(e)),
    }
}

/// Receiving a segmented message that a peer sent, a receiving channel
/// asks for Flow Control after the First Frame and, with a block size
/// `bs > 0`, after every `bs`-th of its `m` Consecutive Frames while bytes
/// remain: `1 + (m - 1) / bs` Flow Control frames in all, one when `bs` is
/// zero. (`receive` transmits one Continue To Send per request.)
pub proof fn lemma_flow_control_per_block(tx: IsoTpConfig, rx: IsoTpConfig, data: Seq<u8>)
    requires
        rx.rx_id == tx.tx_id,
        addressing_matches(tx.addressing, rx.addressing),
        data.len() <= u32::MAX,
        !fits_single(tx_prefix_of(tx.addressing), data.len()),
    ensures
        ({
            let frames = segment(tx_prefix_of(tx.addressing), data);
            let m = frames.len() - 1;
            let bs = rx.block_size;
            &&& m >= 1
            &&& rx_fc_count(
                RxState::Idle,
                accepted_payloads(rx, on_wire(tx, frames)),
                overhead_of(rx.addressing) as int,
                bs,
            ) == (if bs > 0 {
                1 + (m - 1) / (bs as int)
            } else {
                1
            })
        }),
{
    let prefix = tx_prefix_of(tx.addressing);
    let frames = segment(prefix, data);
    lemma_segment_starts_with_prefix(prefix, data);
    assert forall|i: int| 0 <= i < frames.len() implies accepts_ta(
        rx.addressing,
        #[trigger] pad_frame(frames[i], tx.padding),
    ) by {
        let f = frames[i];
        assert(prefix.len() <= f.len() && f.take(prefix.len() as int) == prefix);
        match rx.addressing {
            AddressingMode::Normal => {},
            AddressingMode::Extended { .. } => {
                assert(f.take(1)[0] == f[0]);
                assert(pad_frame(f, tx.padding)[0] == f[0]);
            },
        }
    }
    lemma_accepts_all_sent(tx, rx, frames);
    lemma_fc_requests_of_segmentation(prefix, data, tx.padding, rx.block_size);
}

/// What a send step leaves its driver to do.
#[derive(Debug, Clone, Copy, PartialEq, Eq, Structural)]
pub enum SendProgress {
    /// Call `send_step` again.
    Continue,
    /// Pause for this raw STmin value, then call `send_step` again.
    Pause(u8),
    /// The whole message has been sent.
    Finished,
}

/// Where waiting for Flow Control stands after some accepted frames.
pub enum FcWait {
    /// Still waiting; `waits` FC(Wait) frames counted so far.
    Waiting { waits: nat },
    /// The receiver sent Continue To Send with these parameters.
    ContinueToSend { block_size: u8, st_min: u8 },
    /// The receiver sent Overflow.
    Overflow,
    /// More FC(Wait) frames than `max_fc_wait` arrived.
    WaitLimit,
    /// A frame did not decode.
    Invalid,
}

/// One step of waiting for Flow Control on an accepted payload `b`.
/// FC(Wait) frames are counted when `max_wait` is non-zero, and more than
/// `max_wait` of them end the wait; PDUs other than Flow Control are
/// skipped.
pub open spec fn fc_wait_step(s: FcWait, b: Seq<u8>, o: int, max_wait: u8) -> FcWait {
    match s {
        FcWait::Waiting { waits } => match parse_spec(b, o) {
            None => FcWait::Invalid,
            Some(Pdu::FlowControl(FcFlag::ContinueToSend, bs, st)) => FcWait::ContinueToSend {
                block_size: bs,
                st_min: st,
            },
            Some(Pdu::FlowControl(FcFlag::Wait, _, _)) => if max_wait == 0 {
                s
            } else if waits + 1 > max_wait {
                FcWait::WaitLimit
            } else {
                FcWait::Waiting { waits: waits + 1 }
            },
            Some(Pdu::FlowControl(FcFlag::Overflow, _, _)) => FcWait::Overflow,
            Some(_) => s,
        },
        _ => s,
    }
}

/// Waiting for Flow Control over accepted payloads, in order.
pub open spec fn fc_wait_run(frames: Seq<Seq<u8>>, o: int, max_wait: u8) -> FcWait
    decreases frames.len(),
{
    if frames.len() == 0 {
        FcWait::Waiting { waits: 0 }
    } else {
        fc_wait_step(fc_wait_run(frames.drop_last(), o, max_wait), frames.last(), o, max_wait)
    }
}

/// Up to `max_wait` FC(Wait) frames keep the sender waiting, counted (none
/// counted when `max_wait` is zero).
proof fn lemma_fc_waits(w: Seq<u8>, k: nat, o: int, max_wait: u8)
    requires
        parse_spec(w, o) matches Some(Pdu::FlowControl(FcFlag::Wait, _, _)),
        max_wait == 0 || k <= max_wait,
    ensures
        fc_wait_run(Seq::new(k, |_i: int| w), o, max_wait) == (FcWait::Waiting {
            waits: if max_wait == 0 {
                0
            } else {
                k
            },
        }),
    decreases k,
{
    if k > 0 {
        let frames = Seq::new(k, |_i: int| w);
        assert(frames.drop_last() =~= Seq::new((k - 1) as nat, |_i: int| w));
        lemma_fc_waits(w, (k - 1) as nat, o, max_wait);
    } else {
        assert(Seq::new(k, |_i: int| w) =~= Seq::<Seq<u8>>::empty());
    }
}

/// Waiting for Flow Control tolerates `max_wait` FC(Wait) frames: after
/// `m` of them, `m` at most `max_wait` (or any `m` when `max_wait` is zero),
/// a Continue To Send ends the wait with its block size and STmin.
pub proof fn lemma_fc_waits_then_cts(w: Seq<u8>, m: nat, c: Seq<u8>, o: int, max_wait: u8)
    requires
        parse_spec(w, o) matches Some(Pdu::FlowControl(FcFlag::Wait, _, _)),
        parse_spec(c, o) matches Some(Pdu::FlowControl(FcFlag::ContinueToSend, _, _)),
        max_wait == 0 || m <= max_wait,
    ensures
        parse_spec(c, o) matches Some(Pdu::FlowControl(_, bs, st)) && fc_wait_run(
            Seq::new(m, |_i: int| w).push(c),
            o,
            max_wait,
        ) == (FcWait::ContinueToSend { block_size: bs, st_min: st }),
{
    lemma_fc_waits(w, m, o, max_wait);
    assert(Seq::new(m, |_i: int| w).push(c).drop_last() =~= Seq::new(m, |_i: int| w));
}

/// One FC(Wait) frame more than `max_wait` (when non-zero) ends the wait
/// with the wait limit.
pub proof fn lemma_fc_waits_over_limit(w: Seq<u8>, o: int, max_wait: u8)
    requires
        parse_spec(w, o) matches Some(Pdu::FlowControl(FcFlag::Wait, _, _)),
        max_wait > 0,
    ensures
        fc_wait_run(Seq::new((max_wait + 1) as nat, |_i: int| w), o, max_wait) == FcWait::WaitLimit,
{
    lemma_fc_waits(w, max_wait as nat, o, max_wait);
    assert(Seq::new((max_wait + 1) as nat, |_i: int| w).drop_last() =~= Seq::new(
        max_wait as nat,
        |_i: int| w,
    ));
}

/// What to do with one accepted frame while waiting for Flow Control.
#[derive(Debug, Clone, Copy, PartialEq, Eq, Structural)]
pub enum FcDecision {
    /// Keep waiting, with this many FC(Wait) frames counted.
    Continue(u8),
    /// Continue To Send arrived with this block size and STmin.
    ContinueToSend(u8, u8),
    /// Overflow arrived.
    Overflow,
    /// Too many FC(Wait) frames.
    WaitLimit,
    /// The frame did not decode.
    Invalid,
}

/// The waiting state a decision stands for.
pub open spec fn decision_state(d: FcDecision) -> FcWait {
    match d {
        FcDecision::Continue(w) => FcWait::Waiting { waits: w as nat },
        FcDecision::ContinueToSend(bs, st) => FcWait::ContinueToSend { block_size: bs, st_min: st },
        FcDecision::Overflow => FcWait::Overflow,
        FcDecision::WaitLimit => FcWait::WaitLimit,
        FcDecision::Invalid => FcWait::Invalid,
    }
}

/// Decide on one accepted frame while waiting for Flow Control, with
/// `waits` FC(Wait) frames counted so far.
pub fn fc_step(waits: u8, b: &[u8], overhead: usize, max_wait: u8) -> (r: FcDecision)
    requires
        max_wait > 0 ==> waits <= max_wait,
        max_wait == 0 ==> waits == 0,
    ensures
        decision_state(r) == fc_wait_step(FcWait::Waiting { waits: waits as nat }, b@, overhead as int, max_wait),
        r matches FcDecision::Continue(w) ==> (max_wait > 0 ==> w <= max_wait) && (max_wait == 0 ==> w == 0),
{
    match parse(b, overhead) {
        None => FcDecision::Invalid,
        Some(IsoTpFrame::FlowControl { flag, block_size, st_min }) => match flag {
            FcFlag::ContinueToSend => FcDecision::ContinueToSend(block_size, st_min),
            FcFlag::Wait => {
                if max_wait == 0 {
                    FcDecision::Continue(waits)
                } else if waits >= max_wait {
                    FcDecision::WaitLimit
                } else {
                    FcDecision::Continue(waits + 1)
                }
            },
            FcFlag::Overflow => FcDecision::Overflow,
        },
        Some(_) => FcDecision::Continue(waits),
    }
}

impl<C, E> IsoTpChannel<C> where C: Transmit<Error = E> + Receive<Error = E> {
    /// Transmit a CAN frame with the configured TX ID.
    ///
    /// Fails with `InvalidFrame` exactly when `data` exceeds eight bytes;
    /// any other failure is the channel's.
    pub fn transmit_frame(&mut self, data: &[u8]) -> (r: Result<(), IsoTpError<E>>)
        ensures
            final(self).config_spec() == old(self).config_spec(),
            final(self).received_spec() == old(self).received_spec(),
            data@.len() <= 8 ==> final(self).sent_spec() == old(self).sent_spec().push(
                (old(self).config_spec().tx_id, data@),
            ),
            data@.len() > 8 ==> final(self).sent_spec() == old(self).sent_spec(),
            data@.len() <= 8 ==> one_transmission(
                old(self).events_spec(),
                final(self).events_spec(),
                old(self).config_spec().tx_id,
                data@,
                r,
            ),
            data@.len() > 8 ==> final(self).events_spec() == old(self).events_spec(),
            r matches Err(IsoTpError::InvalidFrame) <==> data@.len() > 8,
            data@.len() > 8 ==> r is Err,
            r is Err ==> (r matches Err(IsoTpError::InvalidFrame) || r matches Err(
                IsoTpError::CanError(_),
            )),
    {
        let frame = match CanFrame::new(self.config.tx_id, data) {
            Some(f) => f,
            None => return Err(IsoTpError::InvalidFrame),
        };
        proof {
            self.sent@ = self.sent@.push((self.config.tx_id, data@));
        }
        let outcome = self.channel.transmit(&frame);
        proof {
            self.events@ = self.events@.push(BusEvent::Transmitted((self.config.tx_id, data@).0, (self.config.tx_id, data@).1, outcome));
            assert(self.events@.drop_last() =~= old(self).events@);
        }
        match outcome {
            Ok(()) => Ok(()),
            Err(e) => Err(IsoTpError::CanError(e)),
        }
    }

    /// Pad (if configured) and transmit a frame payload of at most eight bytes.
    pub fn transmit_padded(&mut self, frame: Vec<u8>) -> (r: Result<(), IsoTpError<E>>)
        requires
            frame@.len() <= 8,
        ensures
            final(self).config_spec() == old(self).config_spec(),
            final(self).received_spec() == old(self).received_spec(),
            final(self).sent_spec() == old(self).sent_spec().push(
                (old(self).config_spec().tx_id, pad_frame(frame@, old(self).config_spec().padding)),
            ),
            one_transmission(
                old(self).events_spec(),
                final(self).events_spec(),
                old(self).config_spec().tx_id,
                pad_frame(frame@, old(self).config_spec().padding),
                r,
            ),
            r is Err ==> r matches Err(IsoTpError::CanError(_)),
    {
        let mut frame = frame;
        pad(&mut frame, self.config.padding);
        self.transmit_frame(frame.as_slice())
    }

    /// Send a Flow Control frame announcing our block size and STmin.
    pub fn send_fc(&mut self, flag: FcFlag) -> (r: Result<(), IsoTpError<E>>)
        requires
            overhead_of(old(self).config_spec().addressing) <= 1,
        ensures
            final(self).config_spec() == old(self).config_spec(),
            final(self).received_spec() == old(self).received_spec(),
            final(self).sent_spec() == old(self).sent_spec().push(
                (
                    old(self).config_spec().tx_id,
                    pad_frame(
                        tx_prefix_of(old(self).config_spec().addressing) + fc_bytes(
                            flag,
                            old(self).config_spec().block_size,
                            old(self).config_spec().st_min,
                        ),
                        old(self).config_spec().padding,
                    ),
                ),
            ),
            one_transmission(
                old(self).events_spec(),
                final(self).events_spec(),
                fc_frame(old(self).config_spec(), flag).0,
                fc_frame(old(self).config_spec(), flag).1,
                r,
            ),
            r is Err ==> r matches Err(IsoTpError::CanError(_)),
    {
        let prefix = self.config.tx_prefix();
        let frame = build_fc(prefix.as_slice(), flag, self.config.block_size, self.config.st_min);
        self.transmit_padded(frame)
    }

    /// Send a functionally addressed single-frame request.
    ///
    /// Functional addressing is broadcast-only and restricted to single
    /// frames (≤ 7 bytes for normal addressing, ≤ 6 for extended). Returns
    /// `PayloadTooLarge` if data exceeds the SF limit, or `InvalidFrame` if
    /// `config.functional_id` is not set.
    pub fn send_functional(&mut self, data: &[u8]) -> (r: Result<(), IsoTpError<E>>)
        ensures
            final(self).config_spec() == old(self).config_spec(),
            final(self).received_spec() == old(self).received_spec(),
            r matches Err(IsoTpError::PayloadTooLarge) <==> data@.len() > 7 - overhead_of(
                old(self).config_spec().addressing,
            ),
            r matches Err(IsoTpError::InvalidFrame) <==> data@.len() <= 7 - overhead_of(
                old(self).config_spec().addressing,
            ) && old(self).config_spec().functional_id is None,
            data@.len() <= 7 - overhead_of(old(self).config_spec().addressing)
                && old(self).config_spec().functional_id is Some ==> (r is Ok || r matches Err(
                IsoTpError::CanError(_),
            )),
            r is Ok ==> data@.len() <= 7 - overhead_of(old(self).config_spec().addressing)
                && old(self).config_spec().functional_id is Some,
            data@.len() <= 7 - overhead_of(old(self).config_spec().addressing) ==> match old(self).config_spec().functional_id {
                Some(fid) => final(self).sent_spec() == old(self).sent_spec().push(
                    (
                        fid,
                        pad_frame(
                            tx_prefix_of(old(self).config_spec().addressing) + sf_bytes(data@),
                            old(self).config_spec().padding,
                        ),
                    ),
                ),
                None => final(self).sent_spec() == old(self).sent_spec(),
            },
            data@.len() > 7 - overhead_of(old(self).config_spec().addressing) ==> final(self).sent_spec()
                == old(self).sent_spec(),
            if data@.len() <= 7 - overhead_of(old(self).config_spec().addressing)
                && old(self).config_spec().functional_id is Some {
                one_transmission(
                    old(self).events_spec(),
                    final(self).events_spec(),
                    old(self).config_spec().functional_id->0,
                    pad_frame(
                        tx_prefix_of(old(self).config_spec().addressing) + sf_bytes(data@),
                        old(self).config_spec().padding,
                    ),
                    r,
                )
            } else {
                final(self).events_spec() == old(self).events_spec()
            },
            r is Err ==> (r matches Err(IsoTpError::PayloadTooLarge) || r matches Err(
                IsoTpError::InvalidFrame,
            ) || r matches Err(IsoTpError::CanError(_))),
    {
        let overhead = self.config.overhead();
        let max_sf = 7 - overhead;
        if data.len() > max_sf {
            return Err(IsoTpError::PayloadTooLarge);
        }
        let functional_id = match self.config.functional_id {
            Some(id) => id,
            None => return Err(IsoTpError::InvalidFrame),
        };
        let prefix = self.config.tx_prefix();
        let mut buf = build_sf(prefix.as_slice(), data);
        pad(&mut buf, self.config.padding);
        let frame = match CanFrame::new(functional_id, buf.as_slice()) {
            Some(f) => f,
            None => return Err(IsoTpError::InvalidFrame),
        };
        proof {
            self.sent@ = self.sent@.push((functional_id, buf@));
        }
        let outcome = self.channel.transmit(&frame);
        proof {
            self.events@ = self.events@.push(BusEvent::Transmitted((functional_id, buf@).0, (functional_id, buf@).1, outcome));
            assert(self.events@.drop_last() =~= old(self).events@);
        }
        match outcome {
            Ok(()) => Ok(()),
            Err(e) => Err(IsoTpError::CanError(e)),
        }
    }

    /// Start sending `data`: the session decides the frames and pacing;
    /// `PayloadTooLarge` if the message exceeds `u32::MAX` bytes.
    pub fn begin_send(&self, data: &[u8]) -> (r: Result<SendSession, IsoTpError<E>>)
        ensures
            r is Err <==> data@.len() > u32::MAX,
            r is Err ==> r matches Err(IsoTpError::PayloadTooLarge),
            r matches Ok(s) ==> {
                &&& s.wf()
                &&& s.prefix_spec() == tx_prefix_of(self.config_spec().addressing)
                &&& s.data_spec() == data@
                &&& s.sent_spec() == Seq::<Seq<u8>>::empty()
                &&& s.phase_spec() is Begin
            },
    {
        let prefix = self.config.tx_prefix();
        match SendSession::new(prefix.as_slice(), data) {
            Some(s) => Ok(s),
            None => Err(IsoTpError::PayloadTooLarge),
        }
    }

    /// Advance a send session by one step.
    ///
    /// The session's next frame goes out padded on the TX ID; when Flow
    /// Control is due, it is awaited (`wait_for_fc`) and its block size and
    /// STmin are handed to the session; a pause for STmin and the end of
    /// the message are left to the caller. Whatever the step, the frames
    /// this channel has sent since the session began stay exactly the
    /// session's frames on the wire, so a finished session has sent the
    /// segmentation of its message.
    pub fn send_step(&mut self, session: &mut SendSession) -> (r: Result<SendProgress, IsoTpError<E>>)
        requires
            old(session).wf(),
        ensures
            final(self).config_spec() == old(self).config_spec(),
            final(session).wf(),
            final(session).prefix_spec() == old(session).prefix_spec(),
            final(session).data_spec() == old(session).data_spec(),
            forall|base: Seq<(CanId, Seq<u8>)>|
                old(self).sent_spec() == #[trigger] (base + on_wire(
                    old(self).config_spec(),
                    old(session).sent_spec(),
                )) ==> final(self).sent_spec() == base + on_wire(
                    old(self).config_spec(),
                    final(session).sent_spec(),
                ),
            r matches Ok(SendProgress::Finished) <==> old(session).phase_spec() is Finished,
            r matches Ok(SendProgress::Finished) ==> final(session).sent_spec() == segment(
                old(session).prefix_spec(),
                old(session).data_spec(),
            ),
            r matches Ok(SendProgress::Pause(st)) ==> old(session).phase_spec() is Pause && st
                == old(session).st_min_spec(),
            old(session).phase_spec() is Pause ==> r == Ok::<SendProgress, IsoTpError<E>>(
                SendProgress::Pause(old(session).st_min_spec()),
            ),
            old(session).phase_spec() is AwaitFlowControl ==> ({
                let s = fc_wait_run(
                    accepted_payloads(
                        old(self).config_spec(),
                        final(self).received_spec().skip(old(self).received_spec().len() as int),
                    ),
                    overhead_of(old(self).config_spec().addressing) as int,
                    old(self).config_spec().max_fc_wait,
                );
                match r {
                    Ok(p) => p is Continue && s == (FcWait::ContinueToSend {
                        block_size: final(session).block_size_spec(),
                        st_min: final(session).st_min_spec(),
                    }) && final(session).phase_spec() is Send,
                    Err(IsoTpError::BufferOverflow) => s == FcWait::Overflow,
                    Err(IsoTpError::WaitLimitExceeded) => s == FcWait::WaitLimit,
                    Err(IsoTpError::InvalidFrame) => s == FcWait::Invalid,
                    Err(IsoTpError::Timeout) => s is Waiting,
                    Err(IsoTpError::CanError(_)) => s is Waiting,
                    _ => false,
                }
            }),
            !(old(session).phase_spec() is AwaitFlowControl) ==> final(self).received_spec()
                == old(self).received_spec(),
            old(session).phase_spec() is Begin || old(session).phase_spec() is Send ==> ({
                let evs = final(self).events_spec();
                &&& evs.len() == old(self).events_spec().len() + 1
                &&& evs.drop_last() == old(self).events_spec()
                &&& evs.last() matches BusEvent::Transmitted(id, d, res) && id == old(self).config_spec().tx_id && d == pad_frame(
                    final(session).sent_spec().last(),
                    old(self).config_spec().padding,
                ) && r == step_result(res)
            }),
            old(session).phase_spec() is AwaitFlowControl ==> ({
                let evs = final(self).events_spec().skip(old(self).events_spec().len() as int);
                &&& final(self).events_spec().take(old(self).events_spec().len() as int) == old(self).events_spec()
                &&& old(self).events_spec().len() <= final(self).events_spec().len()
                &&& reads_only(evs)
                &&& received_frames(evs) == final(self).received_spec().skip(
                    old(self).received_spec().len() as int,
                )
                &&& r matches Err(IsoTpError::CanError(e)) ==> broke_off_with(evs, e)
                &&& exchange_failed(evs) ==> r matches Err(IsoTpError::CanError(_))
            }),
            old(session).phase_spec() is Pause || old(session).phase_spec() is Finished ==> final(self).events_spec() == old(self).events_spec(),
            r is Err ==> old(session).phase_spec() is AwaitFlowControl || r matches Err(
                IsoTpError::CanError(_),
            ),
    {
        let ghost cfg = self.config;
        let ghost sent0 = session.sent_spec();
        let ghost phase0 = session.phase_spec();
        let step = session.next_step();
        match step {
            SendStep::Transmit(frame) => {
                let ghost b = frame@;
                let res = self.transmit_padded(frame);
                proof {
                    lemma_on_wire_push(cfg, sent0, b);
                    assert forall|base: Seq<(CanId, Seq<u8>)>|
                        old(self).sent_spec() == #[trigger] (base + on_wire(cfg, sent0)) implies self.sent_spec()
                        == base + on_wire(cfg, session.sent_spec()) by {
                        assert(self.sent_spec() =~= base + on_wire(cfg, session.sent_spec()));
                    }
                }
                match res {
                    Ok(()) => Ok(SendProgress::Continue),
                    Err(e) => Err(e),
                }
            },
            SendStep::AwaitFlowControl => {
                match self.wait_for_fc() {
                    Ok((block_size, st_min)) => {
                        session.flow_control(block_size, st_min);
                        Ok(SendProgress::Continue)
                    },
                    Err(e) => Err(e),
                }
            },
            SendStep::Pause(st_min) => Ok(SendProgress::Pause(st_min)),
            SendStep::Finished => Ok(SendProgress::Finished),
        }
    }

    /// The time left before `deadline`; the whole timeout when the deadline
    /// could not be represented.
    fn remaining(&self, deadline: &Option<Instant>) -> (r: Duration)
        ensures
            deadline is None ==> r == self.config_spec().timeout,
    {
        match deadline {
            Some(d) => {
                let t = now();
                saturating_since(d, &t)
            },
            None => self.config.timeout,
        }
    }

    /// Wait for a Flow Control frame and return its (block size, STmin).
    ///
    /// Over the frames accepted meanwhile (from the RX ID, with our target
    /// address), the result is what waiting makes of them (`fc_wait_run`):
    /// Continue To Send gives its parameters; FC(Wait) frames are skipped,
    /// and more than `max_fc_wait` of them (when non-zero) fail with
    /// `WaitLimitExceeded`; Overflow fails with `BufferOverflow`; other PDUs
    /// are skipped; a frame that does not decode fails with `InvalidFrame`.
    /// Waiting is bounded by the configured timeout and by `u64::MAX` polls.
    pub fn wait_for_fc(&mut self) -> (r: Result<(u8, u8), IsoTpError<E>>)
        ensures
            final(self).sent_spec() == old(self).sent_spec(),
            final(self).config_spec() == old(self).config_spec(),
            old(self).received_spec().len() <= final(self).received_spec().len(),
            final(self).received_spec().take(old(self).received_spec().len() as int) == old(self).received_spec(),
            old(self).events_spec().len() <= final(self).events_spec().len(),
            final(self).events_spec().take(old(self).events_spec().len() as int) == old(self).events_spec(),
            ({
                let evs = final(self).events_spec().skip(old(self).events_spec().len() as int);
                &&& reads_only(evs)
                &&& received_frames(evs) == final(self).received_spec().skip(
                    old(self).received_spec().len() as int,
                )
                &&& r matches Err(IsoTpError::CanError(e)) ==> broke_off_with(evs, e)
                &&& exchange_failed(evs) ==> r matches Err(IsoTpError::CanError(_))
            }),
            ({
                let s = fc_wait_run(
                    accepted_payloads(
                        old(self).config_spec(),
                        final(self).received_spec().skip(old(self).received_spec().len() as int),
                    ),
                    overhead_of(old(self).config_spec().addressing) as int,
                    old(self).config_spec().max_fc_wait,
                );
                match r {
                    Ok((bs, st)) => s == FcWait::ContinueToSend { block_size: bs, st_min: st },
                    Err(IsoTpError::BufferOverflow) => s == FcWait::Overflow,
                    Err(IsoTpError::WaitLimitExceeded) => s == FcWait::WaitLimit,
                    Err(IsoTpError::InvalidFrame) => s == FcWait::Invalid,
                    Err(IsoTpError::Timeout) => s is Waiting,
                    Err(IsoTpError::CanError(_)) => s is Waiting,
                    _ => false,
                }
            }),
    {
        let overhead = self.config.overhead();
        let ghost o = overhead as int;
        let ghost n0 = self.received@.len() as int;
        let ghost e0 = self.events@.len() as int;
        let ghost mut acc: Seq<Seq<u8>> = Seq::empty();
        let start = now();
        let deadline = checked_deadline(&start, self.config.timeout);
        let mut wait_count: u8 = 0;
        let mut polls: u64 = 0;
        proof {
            assert(self.received@.skip(n0) =~= Seq::<(CanId, Seq<u8>)>::empty());
            assert(self.received@.take(n0) =~= self.received@);
            assert(self.events@.skip(e0) =~= Seq::<BusEvent<E>>::empty());
            assert(self.events@.take(e0) =~= self.events@);
        }
        loop
            invariant
                self.config == old(self).config,
                overhead == overhead_of(self.config.addressing),
                o == overhead as int,
                self.sent == old(self).sent,
                e0 == old(self).events@.len(),
                e0 <= self.events@.len(),
                self.events@.take(e0) == old(self).events@,
                forall|i: int|
                    0 <= i < self.events@.skip(e0).len() ==> #[trigger] self.events@.skip(
                        e0,
                    )[i] is Received,
                received_frames(self.events@.skip(e0)) == self.received@.skip(n0),
                n0 == old(self).received@.len(),
                n0 <= self.received@.len(),
                self.received@.take(n0) == old(self).received@,
                acc == accepted_payloads(self.config, self.received@.skip(n0)),
                fc_wait_run(acc, o, self.config.max_fc_wait) == (FcWait::Waiting {
                    waits: wait_count as nat,
                }),
                self.config.max_fc_wait > 0 ==> wait_count <= self.config.max_fc_wait,
                self.config.max_fc_wait == 0 ==> wait_count == 0,
            decreases u64::MAX - polls,
        {
            if polls == u64::MAX {
                return Err(IsoTpError::Timeout);
            }
            polls = polls + 1;
            let remaining = self.remaining(&deadline);
            if duration_is_zero(&remaining) {
                return Err(IsoTpError::Timeout);
            }
            let ts_frame = match self.channel.receive_timeout(remaining) {
                Err(e) => {
                    proof {
                        let ev = BusEvent::ReceiveFailed(e);
                        lemma_log_push(self.events@, e0, ev);
                        lemma_received_frames_push(self.events@.skip(e0), ev);
                        self.events@ = self.events@.push(ev);
                    }
                    return Err(IsoTpError::CanError(e));
                },
                Ok(None) => continue,
                Ok(Some(f)) => f,
            };
            let can_frame = ts_frame.into_frame();
            let ghost f = (can_frame.id_spec(), can_frame.data_spec());
            proof {
                lemma_log_push(self.received@, n0, f);
                lemma_accepted_push(self.config, self.received@.skip(n0), f);
                self.received@ = self.received@.push(f);
                let ev = BusEvent::Received(f.0, f.1);
                lemma_log_push(self.events@, e0, ev);
                lemma_received_frames_push(self.events@.skip(e0), ev);
                self.events@ = self.events@.push(ev);
            }
            if can_frame.id() != self.config.rx_id {
                continue;
            }
            if !self.config.check_ta(can_frame.data()) {
                continue;
            }
            let ghost before = acc;
            proof {
                acc = acc.push(f.1);
                assert(acc.drop_last() =~= before);
                assert(acc.last() == f.1);
            }
            let d = fc_step(wait_count, can_frame.data(), overhead, self.config.max_fc_wait);
            match d {
                FcDecision::Continue(w) => {
                    wait_count = w;
                    continue;
                },
                FcDecision::ContinueToSend(block_size, st_min) => {
                    return Ok((block_size, st_min));
                },
                FcDecision::WaitLimit => {
                    return Err(IsoTpError::WaitLimitExceeded);
                },
                FcDecision::Overflow => {
                    return Err(IsoTpError::BufferOverflow);
                },
                FcDecision::Invalid => {
                    return Err(IsoTpError::InvalidFrame);
                },
            }
        }
    }

    /// Receive an ISO-TP message, reassembled from a Single Frame or a
    /// First Frame and its Consecutive Frames.
    ///
    /// Only frames from the RX ID that carry our target address are taken
    /// in. Over the frames accepted meanwhile, the result is what
    /// reassembly (`rx_run`) makes of them, and a Flow Control (Continue To
    /// Send) frame is transmitted each time reassembly asks for one: after
    /// the First Frame and after every completed block, right after the
    /// frame that asked for it and before the next frame is read
    /// (`rx_trace` over the event log). A channel error comes back as is,
    /// inside `CanError`. Waiting is bounded by the configured timeout,
    /// restarted by every First or Consecutive Frame taken in, and by
    /// `u64::MAX` polls.
    pub fn receive(&mut self) -> (r: Result<Vec<u8>, IsoTpError<E>>)
        requires
            overhead_of(old(self).config_spec().addressing) <= 1,
        ensures
            final(self).config_spec() == old(self).config_spec(),
            old(self).received_spec().len() <= final(self).received_spec().len(),
            final(self).received_spec().take(old(self).received_spec().len() as int) == old(self).received_spec(),
            ({
                let cfg = old(self).config_spec();
                let acc = accepted_payloads(
                    cfg,
                    final(self).received_spec().skip(old(self).received_spec().len() as int),
                );
                let o = overhead_of(cfg.addressing) as int;
                let s = rx_run(RxState::Idle, acc, o, cfg.block_size);
                &&& final(self).sent_spec() == old(self).sent_spec() + repeated(
                    fc_cts_frame(cfg),
                    rx_fc_count(RxState::Idle, acc, o, cfg.block_size),
                )
                &&& receive_outcome(s, r)
            }),
            old(self).events_spec().len() <= final(self).events_spec().len(),
            final(self).events_spec().take(old(self).events_spec().len() as int) == old(self).events_spec(),
            ({
                let cfg = old(self).config_spec();
                let o = overhead_of(cfg.addressing) as int;
                let evs = final(self).events_spec().skip(old(self).events_spec().len() as int);
                &&& rx_trace(cfg, evs, o, cfg.block_size)
                &&& !fc_due(cfg, evs, o, cfg.block_size)
                &&& received_frames(evs) == final(self).received_spec().skip(
                    old(self).received_spec().len() as int,
                )
                &&& r matches Err(IsoTpError::CanError(e)) ==> broke_off_with(evs, e)
                &&& exchange_failed(evs) ==> r matches Err(IsoTpError::CanError(_))
            }),
    {
        let overhead = self.config.overhead();
        let ghost o = overhead as int;
        let ghost bs = self.config.block_size;
        let ghost n0 = self.received@.len() as int;
        let ghost e0 = self.events@.len() as int;
        let mut rx = Reassembler::new(overhead, self.config.block_size);
        let ghost mut accepted: Seq<Seq<u8>> = Seq::empty();
        let start = now();
        let mut deadline = checked_deadline(&start, self.config.timeout);
        let mut polls: u64 = 0;
        proof {
            assert(self.received@.skip(n0) =~= Seq::<(CanId, Seq<u8>)>::empty());
            assert(self.received@.take(n0) =~= self.received@);
            assert(self.sent@ =~= old(self).sent@ + repeated(fc_cts_frame(self.config), 0));
            assert(self.events@.skip(e0) =~= Seq::<BusEvent<E>>::empty());
            assert(self.events@.take(e0) =~= self.events@);
        }
        loop
            invariant
                self.config == old(self).config,
                overhead == overhead_of(self.config.addressing),
                overhead <= 1,
                o == overhead as int,
                bs == self.config.block_size,
                n0 == old(self).received@.len(),
                n0 <= self.received@.len(),
                self.received@.take(n0) == old(self).received@,
                accepted == accepted_payloads(self.config, self.received@.skip(n0)),
                self.sent@ == old(self).sent@ + repeated(
                    fc_cts_frame(self.config),
                    rx_fc_count(RxState::Idle, accepted, o, bs),
                ),
                e0 == old(self).events@.len(),
                e0 <= self.events@.len(),
                self.events@.take(e0) == old(self).events@,
                rx_trace(self.config, self.events@.skip(e0), o, bs),
                !fc_due(self.config, self.events@.skip(e0), o, bs),
                !exchange_failed(self.events@.skip(e0)),
                received_frames(self.events@.skip(e0)) == self.received@.skip(n0),
                rx.wf(),
                rx.overhead_spec() == overhead,
                rx.block_size_spec() == bs,
                rx.state_spec() == rx_run(RxState::Idle, accepted, o, bs),
                !rx_terminal(rx.state_spec()),
            decreases u64::MAX - polls,
        {
            if polls == u64::MAX {
                return Err(IsoTpError::Timeout);
            }
            polls = polls + 1;
            let remaining = self.remaining(&deadline);
            if duration_is_zero(&remaining) {
                return Err(IsoTpError::Timeout);
            }
            let ghost evs0 = self.events@.skip(e0);
            let ts_frame = match self.channel.receive_timeout(remaining) {
                Err(e) => {
                    proof {
                        let ev = BusEvent::ReceiveFailed(e);
                        lemma_log_push(self.events@, e0, ev);
                        lemma_received_frames_push(evs0, ev);
                        self.events@ = self.events@.push(ev);
                        assert(self.events@.skip(e0).drop_last() =~= evs0);
                    }
                    return Err(IsoTpError::CanError(e));
                },
                Ok(None) => continue,
                Ok(Some(f)) => f,
            };
            let can_frame = ts_frame.into_frame();
            let ghost f = (can_frame.id_spec(), can_frame.data_spec());
            proof {
                lemma_log_push(self.received@, n0, f);
                lemma_accepted_push(self.config, self.received@.skip(n0), f);
                self.received@ = self.received@.push(f);
                let ev = BusEvent::Received(f.0, f.1);
                lemma_log_push(self.events@, e0, ev);
                lemma_received_frames_push(evs0, ev);
                self.events@ = self.events@.push(ev);
                assert(self.events@.skip(e0).drop_last() =~= evs0);
                assert(rx_trace(self.config, self.events@.skip(e0), o, bs));
            }
            if can_frame.id() != self.config.rx_id {
                continue;
            }
            if !self.config.check_ta(can_frame.data()) {
                continue;
            }
            let ghost b = can_frame.data_spec();
            let ghost before = accepted;
            let ghost pre = rx.state_spec();
            let ghost evs1 = self.events@.skip(e0);
            proof {
                assert(accepted_payloads(self.config, received_frames(evs0)) == before);
                assert(evs1.drop_last() == evs0);
                assert(fc_due(self.config, evs1, o, bs) == rx_step(pre, b, o, bs).1);
                accepted = accepted.push(b);
                assert(accepted.drop_last() =~= before);
                assert(accepted.last() == b);
                assert(rx_run(RxState::Idle, accepted, o, bs) == rx_step(pre, b, o, bs).0);
                assert(rx_fc_count(RxState::Idle, accepted, o, bs) == rx_fc_count(
                    RxState::Idle,
                    before,
                    o,
                    bs,
                ) + if rx_step(pre, b, o, bs).1 {
                    1nat
                } else {
                    0nat
                });
            }
            match rx.on_frame(can_frame.data()) {
                RxOutcome::Continue => {},
                RxOutcome::Accepted => {
                    let t = now();
                    deadline = checked_deadline(&t, self.config.timeout);
                },
                RxOutcome::SendFlowControl => {
                    let ghost ev_before = self.events@;
                    let sent_fc = self.send_fc(FcFlag::ContinueToSend);
                    proof {
                        let k = rx_fc_count(RxState::Idle, before, o, bs);
                        assert(self.sent@ =~= old(self).sent@ + repeated(
                            fc_cts_frame(self.config),
                            k + 1,
                        ));
                        let last = self.events@.last();
                        assert(self.events@ =~= ev_before.push(last));
                        lemma_log_push(ev_before, e0, last);
                        lemma_received_frames_push(evs1, last);
                        assert(self.events@.skip(e0).drop_last() =~= evs1);
                        assert(rx_trace(self.config, evs1, o, bs));
                        assert(fc_due(self.config, evs1, o, bs));
                        assert(!exchange_failed(evs1));
                        assert(self.events@.skip(e0).last() == last);
                        assert(rx_trace(self.config, self.events@.skip(e0), o, bs));
                    }
                    match sent_fc {
                        Ok(()) => {},
                        Err(e) => {
                            return Err(e);
                        },
                    }
                    let t = now();
                    deadline = checked_deadline(&t, self.config.timeout);
                },
                RxOutcome::Complete(v) => {
                    assert(rx_run(RxState::Idle, accepted, o, bs) == RxState::Done(v@));
                    return Ok(v);
                },
                RxOutcome::Invalid => {
                    assert(rx_run(RxState::Idle, accepted, o, bs) == RxState::Failed(
                        RxFailure::Invalid,
                    ));
                    return Err(IsoTpError::InvalidFrame);
                },
                RxOutcome::SequenceError { expected, got } => {
                    assert(rx_run(RxState::Idle, accepted, o, bs) == RxState::Failed(
                        RxFailure::Sequence { expected, got },
                    ));
                    return Err(IsoTpError::SequenceError { expected, got });
                },
            }
        }
    }
}

} // verus!
