//! The receiver side of a transfer as a state machine over accepted frames.

use vstd::prelude::*;

use crate::isotp::frame::{copy_range, parse, IsoTpFrame};
use crate::isotp::segment::{rx_step, RxFailure, RxState};

verus! {

/// What the receiver does after a frame.
#[derive(Debug, PartialEq, Eq)]
pub enum RxOutcome {
    /// The frame was not for this stage of reassembly; keep waiting.
    Continue,
    /// A Consecutive Frame was taken in; keep waiting.
    Accepted,
    /// Send a Flow Control (Continue To Send), then keep waiting.
    SendFlowControl,
    /// The message is complete.
    Complete(Vec<u8>),
    /// A frame could not be decoded.
    Invalid,
    /// A Consecutive Frame arrived out of sequence.
    SequenceError { expected: u8, got: u8 },
}

/// Reassembly state for one message.
pub struct Reassembler {
    overhead: usize,
    block_size: u8,
    receiving: bool,
    total: usize,
    got: Vec<u8>,
    expected: u8,
    block: u8,
}

impl Reassembler {
    /// The state the reassembler stands for.
    pub closed spec fn state_spec(self) -> RxState {
        if self.receiving {
            RxState::Receiving {
                total: self.total as nat,
                got: self.got@,
                expected: self.expected,
                block: self.block as nat,
            }
        } else {
            RxState::Idle
        }
    }

    /// The PCI offset frames are decoded at.
    pub closed spec fn overhead_spec(self) -> usize {
        self.overhead
    }

    /// The block size announced in Flow Control.
    pub closed spec fn block_size_spec(self) -> u8 {
        self.block_size
    }

    /// The state is one reassembly can be in while waiting for frames.
    pub closed spec fn wf(self) -> bool {
        self.receiving ==> {
            &&& self.got@.len() < self.total
            &&& self.expected < 16
            &&& if self.block_size > 0 {
                self.block < self.block_size
            } else {
                self.block == 0
            }
        }
    }

    /// A reassembler waiting for the first frame of a message.
    pub fn new(overhead: usize, block_size: u8) -> (r: Reassembler)
        ensures
            r.wf(),
            r.state_spec() is Idle,
            r.overhead_spec() == overhead,
            r.block_size_spec() == block_size,
    {
        Reassembler {
            overhead,
            block_size,
            receiving: false,
            total: 0,
            got: Vec::new(),
            expected: 0,
            block: 0,
        }
    }

    /// Feed one accepted frame payload; the outcome and the new state are
    /// those of `rx_step`.
    pub fn on_frame(&mut self, b: &[u8]) -> (r: RxOutcome)
        requires
            old(self).wf(),
        ensures
            final(self).wf(),
            final(self).overhead_spec() == old(self).overhead_spec(),
            final(self).block_size_spec() == old(self).block_size_spec(),
            ({
                let (s2, fc) = rx_step(
                    old(self).state_spec(),
                    b@,
                    old(self).overhead_spec() as int,
                    old(self).block_size_spec(),
                );
                match r {
                    RxOutcome::Continue => s2 == final(self).state_spec() && !fc && s2
                        == old(self).state_spec(),
                    RxOutcome::Accepted => s2 == final(self).state_spec() && !fc
                        && s2 is Receiving,
                    RxOutcome::SendFlowControl => s2 == final(self).state_spec() && fc,
                    RxOutcome::Complete(v) => s2 == RxState::Done(v@),
                    RxOutcome::Invalid => s2 == RxState::Failed(RxFailure::Invalid),
                    RxOutcome::SequenceError { expected, got } => s2 == RxState::Failed(
                        RxFailure::Sequence { expected, got },
                    ),
                }
            }),
    {
        let parsed = parse(b, self.overhead);
        if !self.receiving {
            match parsed {
                None => RxOutcome::Invalid,
                Some(IsoTpFrame::SingleFrame { data }) => RxOutcome::Complete(data),
                Some(IsoTpFrame::FirstFrame { total_len, data }) => {
                    self.receiving = true;
                    self.total = total_len;
                    self.got = data;
                    self.expected = 1;
                    self.block = 0;
                    RxOutcome::SendFlowControl
                },
                Some(_) => RxOutcome::Continue,
            }
        } else {
            match parsed {
                None => {
                    self.receiving = false;
                    RxOutcome::Invalid
                },
                Some(IsoTpFrame::ConsecutiveFrame { sn, data }) => {
                    if sn != self.expected {
                        let e = self.expected;
                        self.receiving = false;
                        return RxOutcome::SequenceError { expected: e, got: sn };
                    }
                    let needed = self.total - self.got.len();
                    let take = if data.len() < needed {
                        data.len()
                    } else {
                        needed
                    };
                    let ghost old_got = self.got@;
                    let chunk = copy_range(data.as_slice(), 0, take);
                    self.got.extend_from_slice(chunk.as_slice());
                    assert(self.got@ =~= old_got + data@.take(take as int));
                    self.expected = (self.expected + 1) % 16;
                    if self.got.len() >= self.total {
                        let mut out: Vec<u8> = Vec::new();
                        std::mem::swap(&mut out, &mut self.got);
                        self.receiving = false;
                        RxOutcome::Complete(out)
                    } else if self.block_size > 0 && self.block + 1 >= self.block_size {
                        self.block = 0;
                        RxOutcome::SendFlowControl
                    } else if self.block_size > 0 {
                        self.block = self.block + 1;
                        RxOutcome::Accepted
                    } else {
                        RxOutcome::Accepted
                    }
                },
                Some(_) => RxOutcome::Continue,
            }
        }
    }
}

} // verus!
