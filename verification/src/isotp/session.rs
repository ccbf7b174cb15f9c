//! The sender side of a segmented transfer as a state machine.
//!
//! The session decides what happens next; whoever drives it performs the
//! step (transmits the frame, waits for Flow Control, or pauses for the
//! receiver's STmin) and reports Flow Control parameters back.

use vstd::prelude::*;

use crate::isotp::frame::{build_cf, build_ff, build_sf, ff_data_len};
use crate::isotp::segment::{cf_frames, fits_single, lemma_cf_frames_unfold, segment};

verus! {

/// Where a sending session stands.
#[derive(Debug, Clone, Copy, PartialEq, Eq, Structural)]
pub enum SendPhase {
    /// Nothing has been sent yet.
    Begin,
    /// A Flow Control frame from the receiver is due before more frames.
    AwaitFlowControl,
    /// The next Consecutive Frame may go out.
    Send,
    /// The receiver's STmin must elapse; then Flow Control is due if `then_fc`.
    Pause { then_fc: bool },
    /// Every frame of the message has been sent.
    Finished,
}

/// What the driver of a session must do next.
#[derive(Debug, PartialEq, Eq)]
pub enum SendStep {
    /// Transmit this CAN payload (unpadded).
    Transmit(Vec<u8>),
    /// Wait for the receiver's Flow Control and report it.
    AwaitFlowControl,
    /// Pause for this raw STmin value before the next frame.
    Pause(u8),
    /// The message has been sent.
    Finished,
}

/// The sender's progress through one message.
pub struct SendSession {
    prefix: Vec<u8>,
    data: Vec<u8>,
    offset: usize,
    sn: u8,
    fc_bs: u8,
    st_min: u8,
    block_count: u8,
    phase: SendPhase,
    sent: Ghost<Seq<Seq<u8>>>,
}

impl SendSession {
    /// The session is consistent: what was sent plus what remains is the
    /// whole segmentation.
    pub closed spec fn wf(self) -> bool {
        &&& self.prefix@.len() <= 1
        &&& self.data@.len() <= u32::MAX
        &&& self.sn < 16
        &&& match self.phase {
            SendPhase::Begin => self.sent@ == Seq::<Seq<u8>>::empty(),
            SendPhase::Finished => self.sent@ == segment(self.prefix@, self.data@),
            _ => {
                &&& !fits_single(self.prefix@, self.data@.len())
                &&& self.offset < self.data@.len()
                &&& self.sent@ + cf_frames(self.prefix@, self.data@, self.offset as nat, self.sn)
                    == segment(self.prefix@, self.data@)
            },
        }
        &&& self.fc_bs > 0 ==> self.block_count < self.fc_bs
    }

    /// A finished session has sent the whole segmentation of its message.
    pub proof fn lemma_finished_sent_all(self)
        requires
            self.wf(),
            self.phase_spec() is Finished,
        ensures
            self.sent_spec() == segment(self.prefix_spec(), self.data_spec()),
    {
    }

    /// The addressing prefix each frame starts with.
    pub closed spec fn prefix_spec(self) -> Seq<u8> {
        self.prefix@
    }

    /// The message being sent.
    pub closed spec fn data_spec(self) -> Seq<u8> {
        self.data@
    }

    /// The frames transmitted so far.
    pub closed spec fn sent_spec(self) -> Seq<Seq<u8>> {
        self.sent@
    }

    /// The session's phase.
    pub closed spec fn phase_spec(self) -> SendPhase {
        self.phase
    }

    /// Block size from the latest Flow Control.
    pub closed spec fn block_size_spec(self) -> u8 {
        self.fc_bs
    }

    /// STmin from the latest Flow Control.
    pub closed spec fn st_min_spec(self) -> u8 {
        self.st_min
    }

    /// Consecutive Frames sent since the latest Flow Control.
    pub closed spec fn block_count_spec(self) -> u8 {
        self.block_count
    }

    /// Start a session for `data` behind addressing `prefix`.
    ///
    /// Returns `None` if the message exceeds the 32-bit ISO-TP length limit.
    pub fn new(prefix: &[u8], data: &[u8]) -> (r: Option<SendSession>)
        requires
            prefix@.len() <= 1,
        ensures
            r is None <==> data@.len() > u32::MAX,
            r matches Some(s) ==> {
                &&& s.prefix_spec() == prefix@
                &&& s.data_spec() == data@
                &&& s.sent_spec() == Seq::<Seq<u8>>::empty()
                &&& s.phase_spec() is Begin
                &&& s.wf()
            },
    {
        if data.len() as u64 > u32::MAX as u64 {
            return None;
        }
        let mut p: Vec<u8> = Vec::new();
        p.extend_from_slice(prefix);
        let mut d: Vec<u8> = Vec::new();
        d.extend_from_slice(data);
        Some(
            SendSession {
                prefix: p,
                data: d,
                offset: 0,
                sn: 0,
                fc_bs: 0,
                st_min: 0,
                block_count: 0,
                phase: SendPhase::Begin,
                sent: Ghost(Seq::empty()),
            },
        )
    }

    /// The session's phase.
    pub fn phase(&self) -> (r: SendPhase)
        ensures
            r == self.phase_spec(),
    {
        self.phase
    }

    /// Decide the next step and advance.
    ///
    /// The frames transmitted are exactly `segment(prefix, data)`, in order.
    /// Flow Control is awaited after the First Frame and after every
    /// `block_size` Consecutive Frames (when non-zero) while bytes remain;
    /// a pause for STmin (when non-zero) precedes each further frame.
    pub fn next_step(&mut self) -> (r: SendStep)
        requires
            old(self).wf(),
        ensures
            final(self).wf(),
            final(self).prefix_spec() == old(self).prefix_spec(),
            final(self).data_spec() == old(self).data_spec(),
            final(self).phase_spec() is Finished ==> final(self).sent_spec() == segment(
                final(self).prefix_spec(),
                final(self).data_spec(),
            ),
            match r {
                SendStep::Transmit(b) => {
                    &&& old(self).sent_spec().len() < segment(
                        old(self).prefix_spec(),
                        old(self).data_spec(),
                    ).len()
                    &&& b@ == segment(old(self).prefix_spec(), old(self).data_spec())[old(self).sent_spec().len() as int]
                    &&& final(self).sent_spec() == old(self).sent_spec().push(b@)
                    &&& b@.len() <= 8
                },
                _ => final(self).sent_spec() == old(self).sent_spec(),
            },
            old(self).phase_spec() is Begin ==> r is Transmit && final(self).phase_spec() == (
            if fits_single(old(self).prefix_spec(), old(self).data_spec().len()) {
                SendPhase::Finished
            } else {
                SendPhase::AwaitFlowControl
            }),
            old(self).phase_spec() is AwaitFlowControl ==> r is AwaitFlowControl
                && final(self).phase_spec() is AwaitFlowControl,
            old(self).phase_spec() matches SendPhase::Pause { then_fc } ==> r == SendStep::Pause(
                old(self).st_min_spec(),
            ) && final(self).phase_spec() == (if then_fc {
                SendPhase::AwaitFlowControl
            } else {
                SendPhase::Send
            }),
            old(self).phase_spec() is Finished ==> r is Finished && final(self).phase_spec() is Finished,
            old(self).phase_spec() is Send ==> r is Transmit && (if final(self).sent_spec().len()
                == segment(old(self).prefix_spec(), old(self).data_spec()).len() {
                final(self).phase_spec() is Finished
            } else {
                let due = old(self).block_size_spec() > 0 && old(self).block_count_spec() + 1
                    >= old(self).block_size_spec();
                final(self).phase_spec() == (if old(self).st_min_spec() != 0 {
                    SendPhase::Pause { then_fc: due }
                } else if due {
                    SendPhase::AwaitFlowControl
                } else {
                    SendPhase::Send
                })
            }),
            final(self).st_min_spec() == old(self).st_min_spec(),
            final(self).block_size_spec() == old(self).block_size_spec(),
    {
        match self.phase {
            SendPhase::Begin => {
                let n = self.data.len();
                let o = self.prefix.len();
                if n <= 7 - o {
                    let frame = build_sf(self.prefix.as_slice(), self.data.as_slice());
                    self.phase = SendPhase::Finished;
                    proof {
                        self.sent@ = seq![frame@];
                        assert(seq![frame@] =~= segment(self.prefix@, self.data@));
                    }
                    SendStep::Transmit(frame)
                } else {
                    let frame = build_ff(self.prefix.as_slice(), self.data.as_slice());
                    let ffl = if n <= 0xFFF {
                        6 - o
                    } else {
                        2 - o
                    };
                    assert(ffl == ff_data_len(n as nat, o as int));
                    self.offset = ffl;
                    self.sn = 1;
                    self.block_count = 0;
                    self.phase = SendPhase::AwaitFlowControl;
                    proof {
                        self.sent@ = seq![frame@];
                    }
                    assert(seq![frame@] + cf_frames(self.prefix@, self.data@, ffl as nat, 1)
                        =~= segment(self.prefix@, self.data@));
                    SendStep::Transmit(frame)
                }
            },
            SendPhase::AwaitFlowControl => SendStep::AwaitFlowControl,
            SendPhase::Pause { then_fc } => {
                if then_fc {
                    self.phase = SendPhase::AwaitFlowControl;
                } else {
                    self.phase = SendPhase::Send;
                }
                SendStep::Pause(self.st_min)
            },
            SendPhase::Finished => SendStep::Finished,
            SendPhase::Send => {
                let n = self.data.len();
                let cap = 7 - self.prefix.len();
                let off = self.offset;
                let end = if n - off > cap {
                    off + cap
                } else {
                    n
                };
                let frame = build_cf(self.prefix.as_slice(), self.sn, &self.data.as_slice()[off..end]);
                let ghost old_sent = self.sent@;
                let ghost sn = self.sn;
                proof {
                    lemma_cf_frames_unfold(self.prefix@, self.data@, off as nat, sn);
                }
                let sn2 = (self.sn + 1) % 16;
                self.offset = end;
                self.sn = sn2;
                proof {
                    self.sent@ = old_sent.push(frame@);
                }
                proof {
                    assert(old_sent.push(frame@) + cf_frames(self.prefix@, self.data@, end as nat, sn2)
                        =~= old_sent + cf_frames(self.prefix@, self.data@, off as nat, sn));
                }
                if end >= n {
                    assert(cf_frames(self.prefix@, self.data@, end as nat, sn2) =~= Seq::<Seq<u8>>::empty());
                    assert(self.sent@ =~= segment(self.prefix@, self.data@));
                    self.phase = SendPhase::Finished;
                } else {
                    assert(cf_frames(self.prefix@, self.data@, end as nat, sn2).len() > 0);
                    let due = self.fc_bs > 0 && self.block_count + 1 >= self.fc_bs;
                    if self.fc_bs > 0 {
                        if due {
                            self.block_count = 0;
                        } else {
                            self.block_count = self.block_count + 1;
                        }
                    }
                    if self.st_min != 0 {
                        self.phase = SendPhase::Pause { then_fc: due };
                    } else if due {
                        self.phase = SendPhase::AwaitFlowControl;
                    } else {
                        self.phase = SendPhase::Send;
                    }
                }
                SendStep::Transmit(frame)
            },
        }
    }

    /// Report a Flow Control (Continue To Send) from the receiver: its block
    /// size and STmin now govern the following frames.
    pub fn flow_control(&mut self, block_size: u8, st_min: u8)
        requires
            old(self).wf(),
            old(self).phase_spec() is AwaitFlowControl,
        ensures
            final(self).wf(),
            final(self).phase_spec() is Send,
            final(self).block_size_spec() == block_size,
            final(self).st_min_spec() == st_min,
            final(self).block_count_spec() == 0,
            final(self).sent_spec() == old(self).sent_spec(),
            final(self).prefix_spec() == old(self).prefix_spec(),
            final(self).data_spec() == old(self).data_spec(),
    {
        self.fc_bs = block_size;
        self.st_min = st_min;
        self.block_count = 0;
        self.phase = SendPhase::Send;
    }
}

} // verus!
