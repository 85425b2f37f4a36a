//! Transmit side of the transport layer: emits the frame sequence for
//! one outgoing message, paced by the flow control the receiver
//! dictates.

use vstd::prelude::*;

use crate::isotp::encode_consecutive_frame;
use crate::isotp::encode_first_frame;
use crate::isotp::encode_single_frame;
use crate::isotp::max_pdu_len;
use crate::isotp::num_cf;
use crate::isotp::segment_spec;
use crate::isotp::spec_stmin_micros;
use crate::isotp::stmin_micros;
use crate::isotp::IsoTpError;
use vstd::slice::slice_to_vec;

verus! {

/// Transmit-side protocol state.
#[derive(Debug, Clone, Copy, PartialEq, Eq, Structural)]
pub enum TxState {
    /// Nothing sent yet.
    Idle,
    /// First frame sent; waiting for the receiver's flow control.
    TxAwaitingFc,
    /// Clear to send consecutive frames.
    TxSendingCfs,
    /// All bytes transmitted.
    Completed,
    /// The transfer failed; see the error the last call returned.
    Failed,
}

/// What the sender asks its caller to do next.
#[derive(Debug)]
pub enum TxPoll {
    /// Transmit these frame bytes, no earlier than the given separation
    /// delay after the previous frame.
    Frame { data: Vec<u8>, delay_micros: u64 },
    /// Wait for a flow-control frame from the receiver and hand it to
    /// `on_flow_control`.
    AwaitFlowControl,
    /// The whole message has been handed out.
    Done,
}

/// Most Wait flow controls tolerated before the transfer fails.
pub open spec fn max_fc_waits() -> u8 {
    4
}

/// Segmentation engine for one outgoing message.
pub struct IsoTpSender {
    /// The message being transmitted.
    pub payload: Vec<u8>,
    /// Whether emitted frames are padded to eight bytes.
    pub pad_frame: bool,
    /// Protocol state.
    pub state: TxState,
    /// Frames already handed out; indexes the frame sequence.
    pub frames_sent: usize,
    /// Consecutive frames left in the current block (meaningful when
    /// `bs` is not zero).
    pub block_rem: u8,
    /// Block size dictated by the receiver's last clear-to-send.
    pub bs: u8,
    /// Separation time dictated by the receiver's last clear-to-send.
    pub st_min: u8,
    /// Wait flow controls seen while awaiting clear-to-send.
    pub wait_count: u8,
}

impl IsoTpSender {
    /// The frame sequence this sender hands out.
    pub open spec fn frames(self) -> Seq<Seq<u8>> {
        segment_spec(self.payload@, self.pad_frame)
    }

    /// Structural invariant of the sender.
    pub open spec fn wf(self) -> bool {
        &&& self.payload@.len() <= max_pdu_len()
        &&& self.frames_sent <= self.frames().len()
        &&& self.state is Idle ==> self.frames_sent == 0
        &&& self.state is TxAwaitingFc ==> 1 <= self.frames_sent < self.frames().len()
        &&& self.state is TxSendingCfs ==> 1 <= self.frames_sent < self.frames().len() && (self.bs
            == 0 || self.block_rem > 0)
        &&& self.state is Completed ==> self.frames_sent == self.frames().len()
    }

    /// Prepares a sender for one message of at most 4 095 bytes.
    pub fn new(payload: &[u8], pad_frame: bool) -> (r: Result<IsoTpSender, IsoTpError>)
        ensures
            payload@.len() <= max_pdu_len() ==> r is Ok && r->Ok_0.wf() && r->Ok_0.payload@
                == payload@ && r->Ok_0.pad_frame == pad_frame && r->Ok_0.state is Idle,
            payload@.len() > max_pdu_len() ==> r == Err::<IsoTpSender, IsoTpError>(
                IsoTpError::PduTooLarge,
            ),
    {
        if payload.len() > 4095 {
            return Err(IsoTpError::PduTooLarge);
        }
        Ok(
            IsoTpSender {
                payload: slice_to_vec(payload),
                pad_frame,
                state: TxState::Idle,
                frames_sent: 0,
                block_rem: 0,
                bs: 0,
                st_min: 0,
                wait_count: 0,
            },
        )
    }

    /// Hands out the next action: the next frame to transmit with its
    /// separation delay, a request to await flow control, or completion.
    /// The frame handed out at position `i` is exactly frame `i` of the
    /// message's frame sequence.
    pub fn poll(&mut self) -> (r: TxPoll)
        requires
            old(self).wf(),
            !(old(self).state is Failed),
        ensures
            final(self).wf(),
            final(self).payload@ == old(self).payload@,
            final(self).pad_frame == old(self).pad_frame,
            !(final(self).state is Failed),
            // completion is terminal
            old(self).state is Completed ==> r is Done && *final(self) == *old(self),
            // awaiting flow control emits nothing
            old(self).state is TxAwaitingFc ==> r is AwaitFlowControl && *final(self) == *old(self),
            // the opening frame: a single frame completes at once, a
            // first frame awaits the receiver's flow control
            old(self).state is Idle ==> (r matches TxPoll::Frame { data, delay_micros } && data@
                == old(self).frames()[0] && delay_micros == 0) && final(self).frames_sent == 1 && (
            old(self).frames().len() == 1 ==> final(self).state is Completed) && (old(self).frames().len() > 1 ==> final(self).state is TxAwaitingFc),
            // consecutive frames flow while the block allows; with a
            // block size of zero no further flow control is awaited
            old(self).state is TxSendingCfs ==> (r matches TxPoll::Frame { data, delay_micros }
                && data@ == old(self).frames()[old(self).frames_sent as int] && delay_micros
                == spec_stmin_micros(old(self).st_min)) && final(self).frames_sent == old(self).frames_sent + 1 && (final(self).frames_sent == old(self).frames().len() ==> final(self).state is Completed) && (final(self).frames_sent < old(self).frames().len() ==> (
            old(self).bs == 0 ==> final(self).state is TxSendingCfs) && (old(self).bs != 0 ==> (
            old(self).block_rem > 1 ==> final(self).state is TxSendingCfs) && (old(self).block_rem
                == 1 ==> final(self).state is TxAwaitingFc))),
    {
        match self.state {
            TxState::Completed => TxPoll::Done,
            TxState::TxAwaitingFc => TxPoll::AwaitFlowControl,
            TxState::Idle => {
                if self.payload.len() <= 7 {
                    let data = encode_single_frame(self.payload.as_slice(), self.pad_frame);
                    self.state = TxState::Completed;
                    self.frames_sent = 1;
                    TxPoll::Frame { data, delay_micros: 0 }
                } else {
                    let data = encode_first_frame(self.payload.as_slice(), self.pad_frame);
                    self.state = TxState::TxAwaitingFc;
                    self.frames_sent = 1;
                    TxPoll::Frame { data, delay_micros: 0 }
                }
            },
            TxState::TxSendingCfs => {
                let k = self.frames_sent - 1;
                let data = encode_consecutive_frame(self.payload.as_slice(), k, self.pad_frame);
                let delay = stmin_micros(self.st_min);
                self.frames_sent = self.frames_sent + 1;
                if self.frames_sent == 1 + self.payload.len() / 7 {
                    self.state = TxState::Completed;
                } else if self.bs != 0 {
                    self.block_rem = self.block_rem - 1;
                    if self.block_rem == 0 {
                        self.state = TxState::TxAwaitingFc;
                    }
                }
                TxPoll::Frame { data, delay_micros: delay }
            },
            TxState::Failed => TxPoll::Done,
        }
    }

    /// Feeds the receiver's flow control to the sender. Clear-to-send
    /// opens a block under the dictated parameters; Wait restarts the
    /// waiting period up to the allowed count; Overflow or anything
    /// else aborts the transfer.
    pub fn on_flow_control(&mut self, fs: u8, bs: u8, st_min: u8) -> (r: Result<(), IsoTpError>)
        requires
            old(self).wf(),
            old(self).state is TxAwaitingFc,
        ensures
            final(self).wf(),
            final(self).payload@ == old(self).payload@,
            final(self).pad_frame == old(self).pad_frame,
            final(self).frames_sent == old(self).frames_sent,
            fs == 0 ==> r is Ok && final(self).state is TxSendingCfs && final(self).bs == bs
                && final(self).st_min == st_min && final(self).block_rem == bs && final(self).wait_count == 0,
            fs == 1 && old(self).wait_count < max_fc_waits() ==> r is Ok && final(self).state
                is TxAwaitingFc && final(self).wait_count == old(self).wait_count + 1,
            fs == 1 && old(self).wait_count >= max_fc_waits() ==> r == Err::<(), IsoTpError>(
                IsoTpError::FlowControlTimeout,
            ) && final(self).state is Failed,
            fs == 2 ==> r == Err::<(), IsoTpError>(IsoTpError::Aborted) && final(self).state
                is Failed,
            fs >= 3 ==> r == Err::<(), IsoTpError>(IsoTpError::Aborted) && final(self).state
                is Failed,
    {
        if fs == 0 {
            self.state = TxState::TxSendingCfs;
            self.bs = bs;
            self.st_min = st_min;
            self.block_rem = bs;
            self.wait_count = 0;
            Ok(())
        } else if fs == 1 {
            if self.wait_count >= 4 {
                self.state = TxState::Failed;
                Err(IsoTpError::FlowControlTimeout)
            } else {
                self.wait_count = self.wait_count + 1;
                Ok(())
            }
        } else {
            self.state = TxState::Failed;
            Err(IsoTpError::Aborted)
        }
    }

    /// Gives up on the transfer after a deadline elapsed while awaiting
    /// flow control or pacing frames.
    pub fn on_timeout(&mut self) -> (r: IsoTpError)
        ensures
            final(self).state is Failed,
            r == IsoTpError::Timeout,
    {
        self.state = TxState::Failed;
        IsoTpError::Timeout
    }
}

} // verus!
