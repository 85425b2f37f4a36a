//! A complete transfer run: the sender's frames driven into a receiver,
//! with flow control answered as the receiver's settings dictate. Its
//! contract is the transport layer's delivery guarantee: a message of
//! at most 4 095 bytes arrives exactly as it was sent, whatever the
//! padding, block size and separation time in use.

use vstd::prelude::*;

use crate::isotp::cf_sn;
use crate::isotp::lemma_cf_shape;
use crate::isotp::lemma_ff_shape;
use crate::isotp::lemma_sf_shape;
use crate::isotp::lemma_stmin_bound;
use crate::isotp::max_pdu_len;
use crate::isotp::num_cf;
use crate::isotp::IsoTpError;
use crate::isotp::IsoTpSettings;
use crate::isotp_rx::IsoTpRxMemory;
use crate::isotp_tx::IsoTpSender;
use crate::isotp_tx::TxPoll;
use crate::isotp_tx::TxState;

verus! {

/// Runs one whole transfer: segments the payload, paces the frames
/// past a receiver configured with `cfg`, and returns what the
/// receiver collected. For every payload that fits one transfer the
/// receiver observes exactly the bytes that were sent, in order; a
/// longer payload is refused.
#[verifier::rlimit(100)]
pub fn isotp_transfer(payload: &[u8], cfg: &IsoTpSettings) -> (r: Result<Vec<u8>, IsoTpError>)
    ensures
        payload@.len() <= max_pdu_len() ==> r is Ok && r->Ok_0@ == payload@,
        payload@.len() > max_pdu_len() ==> r == Err::<Vec<u8>, IsoTpError>(
            IsoTpError::PduTooLarge,
        ),
{
    let mut tx = match IsoTpSender::new(payload, cfg.pad_frame) {
        Ok(t) => t,
        Err(e) => {
            return Err(e);
        },
    };
    let mut rx = IsoTpRxMemory::new();
    loop
        invariant
            payload@.len() <= max_pdu_len(),
            tx.wf(),
            rx.wf(),
            tx.payload@ == payload@,
            tx.pad_frame == cfg.pad_frame,
            !(tx.state is Failed),
            tx.state is Idle ==> rx.is_reset(),
            (tx.state is TxAwaitingFc || tx.state is TxSendingCfs) ==> {
                &&& payload@.len() > 7
                &&& rx.receiving
                &&& !rx.completed
                &&& rx.expected_len == payload@.len()
                &&& 6 + 7 * (tx.frames_sent - 1) < payload@.len()
                &&& rx.data@ == payload@.take(6 + 7 * (tx.frames_sent - 1))
                &&& rx.next_sn == cf_sn((tx.frames_sent - 1) as nat)
            },
            tx.state is Completed ==> rx.completed && rx.data@ == payload@,
        ensures
            rx.completed,
            rx.data@ == payload@,
        decreases 2 * (tx.frames().len() - tx.frames_sent) + (if tx.state is TxAwaitingFc {
            1int
        } else {
            0int
        }),
    {
        let ghost fs0 = tx.frames_sent as int;
        let ghost st0 = tx.state;
        let step = tx.poll();
        match step {
            TxPoll::Done => {
                proof {
                    assert(st0 is Completed);
                    assert(rx.completed && rx.data@ == payload@);
                }
                break ;
            },
            TxPoll::AwaitFlowControl => {
                let res = tx.on_flow_control(0, cfg.block_size, cfg.st_min);
                match res {
                    Ok(_) => {},
                    Err(e) => {
                        proof {
                            assert(false);
                        }
                        return Err(e);
                    },
                }
            },
            TxPoll::Frame { data, delay_micros: _ } => {
                proof {
                    lemma_stmin_bound(cfg.st_min);
                    if st0 is Idle && payload@.len() <= 7 {
                        lemma_sf_shape(payload@, cfg.pad_frame);
                    } else if st0 is Idle {
                        lemma_ff_shape(payload@, cfg.pad_frame);
                    } else {
                        lemma_cf_shape(payload@, (fs0 - 1) as nat, cfg.pad_frame);
                        assert(tx.frames()[fs0] == crate::isotp::pad8(
                            crate::isotp::cf_data(payload@, (fs0 - 1) as nat),
                            cfg.pad_frame,
                        ));
                        if fs0 < num_cf(payload@.len() as nat) {
                            lemma_cf_shape(payload@, fs0 as nat, cfg.pad_frame);
                        } else {
                            vstd::arithmetic::div_mod::lemma_fundamental_div_mod(
                                payload@.len() as int,
                                7,
                            );
                        }
                    }
                }
                let res = rx.process_frame(data.as_slice(), cfg, 127000);
                match res {
                    Ok(_) => {},
                    Err(e) => {
                        proof {
                            assert(false);
                        }
                        return Err(e);
                    },
                }
                proof {
                    if !(tx.state is Completed) {
                        assert(rx.data@ =~= payload@.take(6 + 7 * (tx.frames_sent - 1)));
                    } else {
                        assert(rx.data@ =~= payload@);
                    }
                }
            },
        }
    }
    Ok(rx.data)
}

} // verus!
