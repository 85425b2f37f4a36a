//! Reassembly side of the transport layer: collects single, first and
//! consecutive frames into a complete message, answers with flow
//! control, and enforces sequence numbers and separation time.

use vstd::prelude::*;

use crate::isotp::cf_need_of;
use crate::isotp::extend_from_slice_range;
use crate::isotp::encode_flow_control_cts;
use crate::isotp::encode_flow_control_wait;
use crate::isotp::max_pdu_len;
use crate::isotp::pad8;
use crate::isotp::separation_ok;
use crate::isotp::spec_stmin_micros;
use crate::isotp::IsoTpError;
use crate::isotp::IsoTpSettings;

verus! {

/// What the receiver asks its caller to do after one incoming frame.
#[derive(Debug)]
pub enum RxStep {
    /// The frame was irrelevant and was dropped.
    Ignored,
    /// The frame was consumed; nothing to transmit.
    Accepted,
    /// The frame was consumed and these flow-control bytes must be sent.
    FlowControl(Vec<u8>),
    /// The message is complete and can be read off the receiver.
    Complete,
}

/// Reassembly state for one incoming message.
pub struct IsoTpRxMemory {
    /// Payload bytes collected so far.
    pub data: Vec<u8>,
    /// Announced total length of the incoming message.
    pub expected_len: usize,
    /// Sequence number the next consecutive frame must carry.
    pub next_sn: u8,
    /// Whether a multi-frame transfer is in progress.
    pub receiving: bool,
    /// Whether a complete message is available.
    pub completed: bool,
    /// Consecutive frames seen since the last flow control.
    pub frames_received: u8,
    /// Block size announced to the sender when the transfer began.
    pub bs: u8,
}

impl IsoTpRxMemory {
    /// Structural invariant of the receiver.
    pub open spec fn wf(self) -> bool {
        &&& self.expected_len <= max_pdu_len()
        &&& self.receiving ==> self.data@.len() < self.expected_len
        &&& self.completed ==> !self.receiving && self.data@.len() == self.expected_len
        &&& self.next_sn < 16
    }

    /// An empty receiver with no transfer in progress.
    pub open spec fn is_reset(self) -> bool {
        &&& self.data@.len() == 0
        &&& self.expected_len == 0
        &&& self.next_sn == 0
        &&& !self.receiving
        &&& !self.completed
        &&& self.frames_received == 0
        &&& self.bs == 0
    }

    /// Creates an empty receiver.
    pub fn new() -> (r: Self)
        ensures
            r.wf(),
            r.is_reset(),
    {
        IsoTpRxMemory {
            data: Vec::new(),
            expected_len: 0,
            next_sn: 0,
            receiving: false,
            completed: false,
            frames_received: 0,
            bs: 0,
        }
    }

    /// Drops any transfer in progress and returns to the empty state.
    fn reset(&mut self)
        ensures
            final(self).wf(),
            final(self).is_reset(),
    {
        self.data = Vec::new();
        self.expected_len = 0;
        self.next_sn = 0;
        self.receiving = false;
        self.completed = false;
        self.frames_received = 0;
        self.bs = 0;
    }
}

/// The length nibble of a single frame.
pub open spec fn sf_len_of(d: Seq<u8>) -> nat {
    (d[0] % 16) as nat
}

/// A single frame is valid when its length nibble is at most seven and
/// the frame holds that many payload bytes.
pub open spec fn sf_valid(d: Seq<u8>) -> bool {
    sf_len_of(d) <= 7 && d.len() >= 1 + sf_len_of(d)
}

/// The 12-bit total length announced by a first frame.
pub open spec fn ff_len_of(d: Seq<u8>) -> nat {
    ((d[0] % 16) * 0x100 + d[1]) as nat
}

/// A first frame is valid when it is a full frame announcing a length
/// that needs segmentation.
pub open spec fn ff_valid(d: Seq<u8>) -> bool {
    d.len() >= 8 && 8 <= ff_len_of(d)
}

impl IsoTpRxMemory {
    /// Processes one incoming CAN frame payload. `delta_micros` is the
    /// time since the previous frame on this transfer. The protocol
    /// control nibble of the first byte selects the handling; the reply,
    /// when one is owed, is returned as flow-control bytes to transmit.
    pub fn process_frame(&mut self, d: &[u8], cfg: &IsoTpSettings, delta_micros: u64) -> (r:
        Result<RxStep, IsoTpError>)
        requires
            old(self).wf(),
        ensures
            final(self).wf(),
            // an empty frame or a stray flow control is ignored
            (d@.len() == 0 || (d@.len() > 0 && d@[0] / 16 == 3)) ==> r is Ok && r->Ok_0 is Ignored
                && *final(self) == *old(self),
            // single frame: completes immediately with its payload
            d@.len() > 0 && d@[0] / 16 == 0 ==> {
                &&& sf_valid(d@) ==> r is Ok && r->Ok_0 is Complete && final(self).completed
                    && !final(self).receiving && final(self).data@ == d@.subrange(
                    1,
                    1 + sf_len_of(d@) as int,
                ) && final(self).expected_len == sf_len_of(d@)
                &&& !sf_valid(d@) ==> r == Err::<RxStep, IsoTpError>(IsoTpError::Aborted) && final(self).is_reset()
            },
            // first frame: start reassembly and answer clear-to-send,
            // or answer Wait when another transfer is in progress
            d@.len() > 0 && d@[0] / 16 == 1 ==> {
                &&& old(self).receiving ==> r is Ok && (r->Ok_0 matches RxStep::FlowControl(fc)
                    && fc@ == pad8(seq![0x32u8], cfg.pad_frame)) && *final(self) == *old(self)
                &&& !old(self).receiving && ff_valid(d@) ==> r is Ok && (r->Ok_0 matches
                    RxStep::FlowControl(fc) && fc@ == pad8(
                    seq![0x30u8, cfg.block_size, cfg.st_min],
                    cfg.pad_frame,
                )) && final(self).receiving && !final(self).completed && final(self).expected_len
                    == ff_len_of(d@) && final(self).data@ == d@.subrange(2, 8) && final(self).next_sn == 1 && final(self).frames_received == 0 && final(self).bs
                    == cfg.block_size
                &&& !old(self).receiving && !ff_valid(d@) ==> r == Err::<RxStep, IsoTpError>(
                    IsoTpError::Aborted,
                ) && final(self).is_reset()
            },
            // consecutive frame: check separation time and sequence
            // number, append the truncated payload, and either finish,
            // owe a flow control at a block boundary, or continue
            d@.len() > 0 && d@[0] / 16 == 2 ==> {
                &&& !old(self).receiving ==> r == Err::<RxStep, IsoTpError>(IsoTpError::Aborted)
                    && final(self).is_reset()
                &&& old(self).receiving && delta_micros < spec_stmin_micros(cfg.st_min) ==> r
                    == Err::<RxStep, IsoTpError>(IsoTpError::SeparationTimeViolation) && final(self).is_reset()
                &&& old(self).receiving && delta_micros >= spec_stmin_micros(cfg.st_min) && d@[0]
                    % 16 != old(self).next_sn ==> r == Err::<RxStep, IsoTpError>(
                    IsoTpError::SequenceError,
                ) && final(self).is_reset()
                &&& old(self).receiving && delta_micros >= spec_stmin_micros(cfg.st_min) && d@[0]
                    % 16 == old(self).next_sn && d@.len() < 1 + cf_need_of(
                    old(self).expected_len as nat,
                    old(self).data@.len(),
                ) ==> r == Err::<RxStep, IsoTpError>(IsoTpError::Aborted) && final(self).is_reset()
                &&& old(self).receiving && delta_micros >= spec_stmin_micros(cfg.st_min) && d@[0]
                    % 16 == old(self).next_sn && d@.len() >= 1 + cf_need_of(
                    old(self).expected_len as nat,
                    old(self).data@.len(),
                ) ==> {
                    let need = cf_need_of(
                        old(self).expected_len as nat,
                        old(self).data@.len(),
                    );
                    &&& r is Ok
                    &&& final(self).data@ == old(self).data@ + d@.subrange(1, 1 + need as int)
                    &&& final(self).expected_len == old(self).expected_len
                    &&& final(self).next_sn == (old(self).next_sn + 1) % 16
                    &&& final(self).bs == old(self).bs
                    &&& old(self).data@.len() + need == old(self).expected_len ==> r->Ok_0
                        is Complete && final(self).completed && !final(self).receiving
                    &&& old(self).data@.len() + need < old(self).expected_len ==> final(self).receiving && !final(self).completed && {
                        &&& old(self).bs != 0 && old(self).frames_received + 1 >= old(self).bs
                            ==> (r->Ok_0 matches RxStep::FlowControl(fc) && fc@ == pad8(
                            seq![0x30u8, cfg.block_size, cfg.st_min],
                            cfg.pad_frame,
                        )) && final(self).frames_received == 0
                        &&& !(old(self).bs != 0 && old(self).frames_received + 1 >= old(self).bs)
                            ==> r->Ok_0 is Accepted && (old(self).bs != 0 ==> final(self).frames_received == old(self).frames_received + 1) && (old(self).bs == 0
                            ==> final(self).frames_received == old(self).frames_received)
                    }
                }
            },
            // any other protocol control nibble aborts
            d@.len() > 0 && d@[0] / 16 >= 4 ==> r == Err::<RxStep, IsoTpError>(IsoTpError::Aborted)
                && final(self).is_reset(),
    {
        if d.len() == 0 {
            return Ok(RxStep::Ignored);
        }
        let pci = d[0] / 16;
        if pci == 0 {
            let sl = (d[0] % 16) as usize;
            if sl > 7 || d.len() < 1 + sl {
                self.reset();
                return Err(IsoTpError::Aborted);
            }
            let mut payload: Vec<u8> = Vec::new();
            extend_from_slice_range(&mut payload, d, 1, 1 + sl);
            proof {
                assert(payload@ =~= d@.subrange(1, 1 + sl as int));
            }
            self.data = payload;
            self.expected_len = sl;
            self.next_sn = 0;
            self.receiving = false;
            self.completed = true;
            self.frames_received = 0;
            self.bs = 0;
            Ok(RxStep::Complete)
        } else if pci == 1 {
            if self.receiving {
                return Ok(RxStep::FlowControl(encode_flow_control_wait(cfg.pad_frame)));
            }
            let total = (d[0] % 16) as usize * 0x100 + if d.len() >= 2 {
                d[1] as usize
            } else {
                0
            };
            if d.len() < 8 || total < 8 {
                self.reset();
                return Err(IsoTpError::Aborted);
            }
            let mut payload: Vec<u8> = Vec::new();
            extend_from_slice_range(&mut payload, d, 2, 8);
            self.data = payload;
            self.expected_len = total;
            self.next_sn = 1;
            self.receiving = true;
            self.completed = false;
            self.frames_received = 0;
            self.bs = cfg.block_size;
            Ok(RxStep::FlowControl(encode_flow_control_cts(cfg.block_size, cfg.st_min, cfg.pad_frame)))
        } else if pci == 2 {
            if !self.receiving {
                self.reset();
                return Err(IsoTpError::Aborted);
            }
            if !separation_ok(delta_micros, cfg.st_min) {
                self.reset();
                return Err(IsoTpError::SeparationTimeViolation);
            }
            if d[0] % 16 != self.next_sn {
                self.reset();
                return Err(IsoTpError::SequenceError);
            }
            let rem = self.expected_len - self.data.len();
            let need = if rem >= 7 {
                7
            } else {
                rem
            };
            if d.len() < 1 + need {
                self.reset();
                return Err(IsoTpError::Aborted);
            }
            extend_from_slice_range(&mut self.data, d, 1, 1 + need);
            self.next_sn = (self.next_sn + 1) % 16;
            if self.data.len() == self.expected_len {
                self.receiving = false;
                self.completed = true;
                Ok(RxStep::Complete)
            } else if self.bs != 0 && self.frames_received as usize + 1 >= self.bs as usize {
                self.frames_received = 0;
                Ok(RxStep::FlowControl(encode_flow_control_cts(
                    cfg.block_size,
                    cfg.st_min,
                    cfg.pad_frame,
                )))
            } else {
                if self.bs != 0 {
                    self.frames_received = self.frames_received + 1;
                }
                Ok(RxStep::Accepted)
            }
        } else if pci == 3 {
            Ok(RxStep::Ignored)
        } else {
            self.reset();
            Err(IsoTpError::Aborted)
        }
    }
}

} // verus!
