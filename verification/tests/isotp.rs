use ecu_diag::isotp::segment_pdu;
use ecu_diag::isotp::stmin_micros;
use ecu_diag::isotp::separation_ok;
use ecu_diag::isotp::IsoTpError;
use ecu_diag::isotp::IsoTpSettings;
use ecu_diag::isotp_link::isotp_transfer;
use ecu_diag::isotp_rx::IsoTpRxMemory;
use ecu_diag::isotp_rx::RxStep;
use ecu_diag::isotp_tx::IsoTpSender;
use ecu_diag::isotp_tx::TxPoll;

fn settings(bs: u8, st: u8, pad: bool) -> IsoTpSettings {
    IsoTpSettings { block_size: bs, st_min: st, pad_frame: pad, ..Default::default() }
}

#[test]
fn test_single_frame() {
    let tx_bytes: &[u8] = &[0x01, 0x02, 0x03, 0x04, 0x05];
    let cfg = settings(8, 20, true);
    let r = isotp_transfer(tx_bytes, &cfg);
    assert!(r.is_ok());
    assert_eq!(tx_bytes.to_vec(), r.unwrap());
}

#[test]
fn test_multi_frame() {
    let tx_bytes: Vec<u8> = (0..0xFF).collect::<Vec<u8>>();
    let cfg = settings(8, 20, true);
    let r = isotp_transfer(&tx_bytes, &cfg);
    assert!(r.is_ok());
    assert_eq!(tx_bytes.to_vec(), r.unwrap());

    let tx2_bytes: Vec<u8> = (0x00..0xFF).rev().collect::<Vec<u8>>();
    let r = isotp_transfer(&tx2_bytes, &cfg);
    assert!(r.is_ok());
    assert_eq!(tx2_bytes.to_vec(), r.unwrap());
}

#[test]
fn seven_byte_pdu_uses_single_frame() {
    let payload: Vec<u8> = vec![1, 2, 3, 4, 5, 6, 7];
    let frames = segment_pdu(&payload, false).unwrap();
    assert_eq!(frames.len(), 1);
    assert_eq!(frames[0], vec![0x07, 1, 2, 3, 4, 5, 6, 7]);
}

#[test]
fn eight_byte_pdu_uses_first_frame_and_one_cf() {
    let payload: Vec<u8> = vec![1, 2, 3, 4, 5, 6, 7, 8];
    let frames = segment_pdu(&payload, false).unwrap();
    assert_eq!(frames.len(), 2);
    assert_eq!(frames[0], vec![0x10, 0x08, 1, 2, 3, 4, 5, 6]);
    assert_eq!(frames[1], vec![0x21, 7, 8]);
}

#[test]
fn largest_pdu_completes() {
    let payload: Vec<u8> = (0..4095u32).map(|i| (i % 251) as u8).collect();
    let cfg = settings(8, 0x14, true);
    let r = isotp_transfer(&payload, &cfg);
    assert!(r.is_ok());
    assert_eq!(payload, r.unwrap());
}

#[test]
fn oversized_pdu_is_refused() {
    let payload: Vec<u8> = vec![0; 4096];
    let cfg = settings(8, 0x14, true);
    assert_eq!(isotp_transfer(&payload, &cfg), Err(IsoTpError::PduTooLarge));
    assert!(matches!(segment_pdu(&payload, true), Err(IsoTpError::PduTooLarge)));
}

#[test]
fn padding_does_not_alter_decoded_payload() {
    let payload: Vec<u8> = (0..100u32).map(|i| i as u8).collect();
    let padded = isotp_transfer(&payload, &settings(4, 5, true)).unwrap();
    let unpadded = isotp_transfer(&payload, &settings(4, 5, false)).unwrap();
    assert_eq!(padded, payload);
    assert_eq!(unpadded, payload);
    assert_eq!(padded.len(), unpadded.len());
}

#[test]
fn consecutive_frames_carry_successive_sequence_numbers() {
    let payload: Vec<u8> = (0..200u32).map(|i| i as u8).collect();
    let frames = segment_pdu(&payload, false).unwrap();
    // frame 0 is the first frame; consecutive frames start at sequence 1
    for (k, f) in frames.iter().enumerate().skip(1) {
        assert_eq!(f[0] >> 4, 0x2);
        assert_eq!((f[0] & 0x0F) as usize, k % 16);
    }
    // adjacent frames differ by one modulo sixteen
    for w in frames[1..].windows(2) {
        assert_eq!((w[0][0] % 16 + 1) % 16, w[1][0] % 16);
    }
}

#[test]
fn sender_with_block_size_zero_never_awaits_more_flow_control() {
    let payload: Vec<u8> = vec![0xAB; 100];
    let mut tx = IsoTpSender::new(&payload, false).unwrap();
    // first frame, then the one flow control
    assert!(matches!(tx.poll(), TxPoll::Frame { .. }));
    assert!(matches!(tx.poll(), TxPoll::AwaitFlowControl));
    tx.on_flow_control(0, 0, 0).unwrap();
    let mut frames = 0;
    loop {
        match tx.poll() {
            TxPoll::Frame { .. } => frames += 1,
            TxPoll::AwaitFlowControl => panic!("awaited flow control again with BS=0"),
            TxPoll::Done => break,
        }
    }
    assert_eq!(frames, 100 / 7);
}

#[test]
fn stmin_zero_permits_back_to_back_frames() {
    assert_eq!(stmin_micros(0), 0);
    assert!(separation_ok(0, 0));
    let payload: Vec<u8> = vec![1; 50];
    let mut tx = IsoTpSender::new(&payload, false).unwrap();
    assert!(matches!(tx.poll(), TxPoll::Frame { .. }));
    assert!(matches!(tx.poll(), TxPoll::AwaitFlowControl));
    tx.on_flow_control(0, 0, 0).unwrap();
    while let TxPoll::Frame { delay_micros, .. } = tx.poll() {
        assert_eq!(delay_micros, 0);
    }
}

#[test]
fn stmin_wire_encodings_decode_to_microseconds() {
    assert_eq!(stmin_micros(0x14), 20_000);
    assert_eq!(stmin_micros(0x7F), 127_000);
    assert_eq!(stmin_micros(0xF1), 100);
    assert_eq!(stmin_micros(0xF9), 900);
    // reserved values count as the maximum
    assert_eq!(stmin_micros(0x80), 127_000);
    assert_eq!(stmin_micros(0xFA), 127_000);
}

#[test]
fn receiver_emits_flow_control_per_block() {
    // a 201-byte message: first frame, then 28 consecutive frames, with
    // a flow control after the first frame and after each block of 8
    let payload: Vec<u8> = (0..201u32).map(|i| i as u8).collect();
    let cfg = settings(8, 0x14, true);
    let frames = segment_pdu(&payload, true).unwrap();
    assert_eq!(frames.len(), 1 + 28);
    let mut rx = IsoTpRxMemory::new();
    let mut fcs: Vec<Vec<u8>> = Vec::new();
    let mut completed = false;
    for f in &frames {
        match rx.process_frame(f, &cfg, 1_000_000).unwrap() {
            RxStep::FlowControl(fc) => fcs.push(fc),
            RxStep::Complete => completed = true,
            _ => {}
        }
    }
    assert!(completed);
    assert_eq!(rx.data, payload);
    // flow control after the first frame and after consecutive frames 8, 16, 24
    assert_eq!(fcs.len(), 4);
    for fc in &fcs {
        assert_eq!(&fc[0..3], &[0x30, 0x08, 0x14]);
        assert_eq!(fc.len(), 8);
        assert_eq!(&fc[3..], &[0xCC, 0xCC, 0xCC, 0xCC, 0xCC]);
    }
    // the last consecutive frame carries the 201 - 6 - 27 * 7 = 6 trailing bytes
    let last = &frames[28];
    assert_eq!(&last[1..7], &payload[195..201]);
}

#[test]
fn receiver_rejects_wrong_sequence_number() {
    let cfg = settings(0, 0, false);
    let mut rx = IsoTpRxMemory::new();
    let ff: Vec<u8> = vec![0x10, 0x0A, 1, 2, 3, 4, 5, 6];
    assert!(matches!(rx.process_frame(&ff, &cfg, 0).unwrap(), RxStep::FlowControl(_)));
    // sequence number 2 instead of 1
    let bad_cf: Vec<u8> = vec![0x22, 7, 8, 9, 10];
    assert!(matches!(rx.process_frame(&bad_cf, &cfg, 0), Err(IsoTpError::SequenceError)));
}

#[test]
fn receiver_rejects_separation_time_violation() {
    let cfg = settings(0, 0x14, false);
    let mut rx = IsoTpRxMemory::new();
    let ff: Vec<u8> = vec![0x10, 0x0A, 1, 2, 3, 4, 5, 6];
    assert!(matches!(rx.process_frame(&ff, &cfg, 1_000_000).unwrap(), RxStep::FlowControl(_)));
    // 20 ms announced, frame arrives after 1 ms
    let cf: Vec<u8> = vec![0x21, 7, 8, 9, 10];
    assert!(matches!(
        rx.process_frame(&cf, &cfg, 1_000),
        Err(IsoTpError::SeparationTimeViolation)
    ));
}

#[test]
fn receiver_answers_wait_while_busy() {
    let cfg = settings(8, 0x14, true);
    let mut rx = IsoTpRxMemory::new();
    let ff: Vec<u8> = vec![0x10, 0x0A, 1, 2, 3, 4, 5, 6];
    assert!(matches!(rx.process_frame(&ff, &cfg, 0).unwrap(), RxStep::FlowControl(_)));
    // a second first frame while receiving is answered with Wait
    match rx.process_frame(&ff, &cfg, 1_000_000).unwrap() {
        RxStep::FlowControl(fc) => {
            assert_eq!(fc[0], 0x32);
            assert_eq!(fc.len(), 8);
        }
        other => panic!("expected a Wait flow control, got {:?}", other),
    }
}

#[test]
fn sender_fails_after_too_many_waits() {
    let payload: Vec<u8> = vec![1; 50];
    let mut tx = IsoTpSender::new(&payload, false).unwrap();
    assert!(matches!(tx.poll(), TxPoll::Frame { .. }));
    assert!(matches!(tx.poll(), TxPoll::AwaitFlowControl));
    for _ in 0..4 {
        assert!(tx.on_flow_control(1, 0, 0).is_ok());
    }
    assert_eq!(tx.on_flow_control(1, 0, 0), Err(IsoTpError::FlowControlTimeout));
}

#[test]
fn sender_aborts_on_overflow() {
    let payload: Vec<u8> = vec![1; 50];
    let mut tx = IsoTpSender::new(&payload, false).unwrap();
    assert!(matches!(tx.poll(), TxPoll::Frame { .. }));
    assert!(matches!(tx.poll(), TxPoll::AwaitFlowControl));
    assert_eq!(tx.on_flow_control(2, 0, 0), Err(IsoTpError::Aborted));
}

#[test]
fn sender_reports_timeout() {
    let payload: Vec<u8> = vec![1; 50];
    let mut tx = IsoTpSender::new(&payload, false).unwrap();
    assert!(matches!(tx.poll(), TxPoll::Frame { .. }));
    assert_eq!(tx.on_timeout(), IsoTpError::Timeout);
}
