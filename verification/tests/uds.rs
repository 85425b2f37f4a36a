use automotive_diag::uds::CommunicationLevel;
use automotive_diag::uds::CommunicationType;
use automotive_diag::uds::Subnet;
use ecu_diag::api::UdsServiceResponse;
use ecu_diag::bytes::bcd_decode;
use ecu_diag::bytes::bcd_decode_slice;
use ecu_diag::control_dtc_setting::DTCSettingSubfcn;
use ecu_diag::diagnostic_session_control::UdsSessionType;
use ecu_diag::ecu_reset::ResetType;
use ecu_diag::errors::process_ecu_response;
use ecu_diag::errors::ReplyClass;
use ecu_diag::errors::UdsClientError;
use ecu_diag::errors::UdsError;
use ecu_diag::frame::ids_to_filter_mask;
use ecu_diag::isotp::IsoTpSettings;
use ecu_diag::isotp_rx::IsoTpRxMemory;
use ecu_diag::isotp_rx::RxStep;
use ecu_diag::link_control::LinkControlMode;
use ecu_diag::security_access::SecurityLevelAccess;
use ecu_diag::uds::build_command_frame;
use ecu_diag::uds::ReplyAction;
use ecu_diag::uds::UDSClientSession;

#[test]
fn test_filter_mask_gen() {
    let ids = [0x1E0, 0x1E1, 0x1E9, 0x7E0];
    let (m, f) = ids_to_filter_mask(&ids, false);
    for id in ids {
        assert_eq!(m & id, f)
    }
}

#[test]
fn default_session_entry_round_trip() {
    // request on the wire: single frame, padded with 0xCC
    let frame = build_command_frame(0x10, &[0x01], true);
    assert_eq!(frame, vec![0x02, 0x10, 0x01, 0xCC, 0xCC, 0xCC, 0xCC, 0xCC]);

    // the ECU's single-frame reply reassembles to the positive PDU
    let mut rx = IsoTpRxMemory::new();
    let cfg = IsoTpSettings::default();
    let reply_frame: Vec<u8> = vec![0x02, 0x50, 0x01, 0x00, 0x00, 0x00, 0x00, 0x00];
    assert!(matches!(rx.process_frame(&reply_frame, &cfg, 1_000_000).unwrap(), RxStep::Complete));
    assert_eq!(rx.data, vec![0x50, 0x01]);

    // the client reports success and enters the default session
    let mut client = UDSClientSession::new_client();
    let r = client.uds_set_session_mode(UdsSessionType::Default, &rx.data);
    match r {
        UdsServiceResponse::Success(d) => assert_eq!(d.console_output, "SUCCESS"),
        UdsServiceResponse::Fail(d) => panic!("unexpected failure: {}", d.console_output),
    }
    assert_eq!(client.current_diag_mode.mode, UdsSessionType::Default);
}

#[test]
fn negative_session_reply_leaves_mode_unchanged() {
    let mut client = UDSClientSession::new_client();
    assert_eq!(client.current_diag_mode.mode, UdsSessionType::Default);
    let r = client.uds_set_session_mode(UdsSessionType::Programming, &[0x7F, 0x10, 0x22]);
    match r {
        UdsServiceResponse::Fail(d) => assert_eq!(d.console_output, "FAIL\nNEGATIVE UDS RESPONSE"),
        UdsServiceResponse::Success(_) => panic!("negative reply must not succeed"),
    }
    assert_eq!(client.current_diag_mode.mode, UdsSessionType::Default);
}

#[test]
fn empty_session_reply_reports_empty() {
    let mut client = UDSClientSession::new_client();
    let r = client.uds_set_session_mode(UdsSessionType::Extended, &[]);
    match r {
        UdsServiceResponse::Fail(d) => assert_eq!(d.console_output, "FAIL\nEMPTY UDS RESPONSE"),
        UdsServiceResponse::Success(_) => panic!("empty reply must not succeed"),
    }
}

#[test]
fn one_transaction_at_a_time() {
    let mut client = UDSClientSession::new_client();
    assert!(!client.has_outstanding());
    client.begin_request(0x22, 0);
    assert!(client.has_outstanding());
    let act = client.on_reply(&[0x62, 0x01, 0x07], 100);
    assert_eq!(act, ReplyAction::Deliver);
    assert!(!client.has_outstanding());
    // the slot is free again, so a new request may open
    client.begin_request(0x10, 200);
    assert!(client.has_outstanding());
}

#[test]
fn pending_responses_extend_the_deadline() {
    let mut client = UDSClientSession::new_client();
    client.begin_request(0x22, 0);
    let a1 = client.on_reply(&[0x7F, 0x22, 0x78], 1000);
    assert_eq!(a1, ReplyAction::ExtendDeadline(6000));
    let a2 = client.on_reply(&[0x7F, 0x22, 0x78], 2000);
    assert_eq!(a2, ReplyAction::ExtendDeadline(7000));
    let a3 = client.on_reply(&[0x62, 0x01, 0x06, 0x01], 3000);
    assert_eq!(a3, ReplyAction::Deliver);
}

#[test]
fn pending_responses_give_up_after_the_cap() {
    let mut client = UDSClientSession::new_client();
    client.begin_request(0x22, 0);
    for _ in 0..10 {
        assert!(matches!(client.on_reply(&[0x7F, 0x22, 0x78], 0), ReplyAction::ExtendDeadline(_)));
    }
    assert_eq!(
        client.on_reply(&[0x7F, 0x22, 0x78], 0),
        ReplyAction::Failed(UdsClientError::NegativeResponse(0x78))
    );
}

#[test]
fn busy_repeat_grants_one_retry() {
    let mut client = UDSClientSession::new_client();
    client.begin_request(0x22, 0);
    assert_eq!(client.on_reply(&[0x7F, 0x22, 0x21], 0), ReplyAction::Retry(100));
    assert_eq!(
        client.on_reply(&[0x7F, 0x22, 0x21], 0),
        ReplyAction::Failed(UdsClientError::NegativeResponse(0x21))
    );
}

#[test]
fn other_negative_codes_and_bad_replies_fail() {
    let mut client = UDSClientSession::new_client();
    client.begin_request(0x31, 0);
    assert_eq!(
        client.on_reply(&[0x7F, 0x31, 0x7E], 0),
        ReplyAction::Failed(UdsClientError::NegativeResponse(0x7E))
    );
    client.begin_request(0x22, 0);
    assert_eq!(
        client.on_reply(&[0x99, 0x01], 0),
        ReplyAction::Failed(UdsClientError::WrongResponseSid)
    );
    client.begin_request(0x22, 0);
    assert_eq!(
        client.on_reply(&[], 0),
        ReplyAction::Failed(UdsClientError::EmptyResponse)
    );
}

#[test]
fn positive_reply_first_byte_echoes_sid_plus_40() {
    let sid = [0x22u8];
    assert_eq!(process_ecu_response(&sid, &[0x62, 0x01]), ReplyClass::Positive);
    assert_eq!(process_ecu_response(&sid, &[0x63, 0x01]), ReplyClass::Unexpected);
    assert_eq!(process_ecu_response(&sid, &[0x7F, 0x22, 0x31]), ReplyClass::Negative(0x31));
    assert_eq!(process_ecu_response(&sid, &[]), ReplyClass::Empty);
}

#[test]
fn tester_present_is_idempotent() {
    let mut client = UDSClientSession::new_client();
    // no keep-alive owed in the fresh default session
    assert!(!client.uds_tester_present(100_000));

    // gaining a security level turns the obligation on
    client
        .uds_security_access_send_key(SecurityLevelAccess::Level1SendKey, &[0x67, 0x04])
        .unwrap();
    assert_eq!(client.current_diag_mode.sec_level, SecurityLevelAccess::Level1SendKey);
    assert!(client.current_diag_mode.tp_require);
    assert!(!client.uds_tester_present(40_000));
    assert!(client.uds_tester_present(40_001));

    // handling tester-present replies leaves the session state alone
    let before = client.current_diag_mode.clone();
    client.current_diag_mode.apply_reply(0x3E, 0, &[0x7E]);
    client.current_diag_mode.apply_reply(0x3E, 0, &[0x7E]);
    assert_eq!(client.current_diag_mode, before);
}

#[test]
fn seed_request_extracts_five_bytes() {
    let mut client = UDSClientSession::new_client();
    assert_eq!(
        client.security_access_request(SecurityLevelAccess::Level1RequestSeed),
        vec![0x27, 0x03]
    );
    let seed = client
        .uds_security_access_request_seed(
            SecurityLevelAccess::Level1RequestSeed,
            &[0x67, 0x03, 9, 8, 7, 6, 5],
        )
        .unwrap();
    assert_eq!(seed, vec![9, 8, 7, 6, 5]);
    // a positive reply of the wrong length is a parameter fault
    assert_eq!(
        client.uds_security_access_request_seed(
            SecurityLevelAccess::Level1RequestSeed,
            &[0x67, 0x03, 9, 8],
        ),
        Err(UdsClientError::ParameterInvalid)
    );
}

#[test]
fn key_submission_validates_level_and_length() {
    let client = UDSClientSession::new_client();
    let ok = client
        .security_access_key_request(SecurityLevelAccess::Level1SendKey, &[1, 2, 3, 4, 5])
        .unwrap();
    assert_eq!(ok, vec![0x27, 0x04, 1, 2, 3, 4, 5]);
    assert_eq!(
        client.security_access_key_request(SecurityLevelAccess::Level1SendKey, &[1, 2, 3, 4]),
        Err(UdsClientError::ParameterInvalid)
    );
    assert_eq!(
        client.security_access_key_request(
            SecurityLevelAccess::Level1RequestSeed,
            &[1, 2, 3, 4, 5],
        ),
        Err(UdsClientError::ParameterInvalid)
    );
}

#[test]
fn ecu_reset_requests_and_reports_success() {
    let mut client = UDSClientSession::new_client();
    assert_eq!(client.ecu_reset_request(ResetType::HardReset), vec![0x11, 0x01]);
    assert_eq!(client.ecu_reset_request(ResetType::ImxReset), vec![0x11, 0x42]);
    match client.uds_ecu_reset(ResetType::SoftReset) {
        UdsServiceResponse::Success(d) => assert_eq!(d.console_output, "SUCCESS"),
        UdsServiceResponse::Fail(_) => panic!("reset must report success"),
    }
    assert!(client.uds_ecu_reset_setup());
}

#[test]
fn dtc_query_requests_carry_the_documented_bytes() {
    let client = UDSClientSession::new_client();
    assert_eq!(client.uds_get_number_of_dtcs_by_status_mask(0xAF), vec![0x19, 0x01, 0xAF]);
    assert_eq!(client.uds_get_dtcs_by_status_mask(0x08), vec![0x19, 0x02, 0x08]);
    assert_eq!(
        client.uds_get_dtc_snapshot_record_by_dtc_number(0x00123456, 0xFF),
        vec![0x19, 0x04, 0x12, 0x34, 0x56, 0xFF]
    );
    assert_eq!(client.uds_get_supported_dtc(), vec![0x19, 0x0A]);
    assert_eq!(client.uds_get_dtc_with_permanent_status(), vec![0x19, 0x15]);
    assert_eq!(
        client.uds_get_severity_information_of_dtc(0x00ABCDEF),
        vec![0x19, 0x09, 0xAB, 0xCD, 0xEF]
    );
}

#[test]
fn communication_control_encodes_type_and_subnet() {
    let client = UDSClientSession::new_client();
    assert_eq!(
        client.uds_communication_control(
            CommunicationType::NormalCommunication,
            Subnet::All,
            CommunicationLevel::EnableRxAndTx,
        ),
        vec![0x28, 0x00, 0x01]
    );
    assert_eq!(
        client.uds_communication_control(
            CommunicationType::All,
            Subnet::RxOnly,
            CommunicationLevel::DisableRxAndTx,
        ),
        vec![0x28, 0x03, 0xF3]
    );
}

#[test]
fn dtc_setting_and_link_control_requests() {
    let client = UDSClientSession::new_client();
    assert_eq!(client.uds_control_dtc_setting(DTCSettingSubfcn::On), vec![0x85, 0x01]);
    assert_eq!(client.uds_control_dtc_setting(DTCSettingSubfcn::Off), vec![0x85, 0x02]);
    assert_eq!(
        client.uds_link_control(LinkControlMode::TransitionMode, &[0xAA, 0xBB]),
        vec![0x87, 0x03, 0x00, 0xAA, 0xBB]
    );
    // parameters beyond what one frame carries are truncated
    assert_eq!(
        client.uds_link_control(
            LinkControlMode::VerifyModeTransitionWithSpecificParameter,
            &[1, 2, 3, 4, 5, 6],
        ),
        vec![0x87, 0x02, 0x00, 1, 2, 3, 4]
    );
}

#[test]
fn negative_response_codes_decode_by_value() {
    assert_eq!(UdsError::from_u8(0x10), Some(UdsError::GeneralReject));
    assert_eq!(UdsError::from_u8(0x22), Some(UdsError::ConditionsNotCorrect));
    assert_eq!(UdsError::from_u8(0x78), Some(UdsError::RequestCorrectlyReceivedResponsePending));
    assert_eq!(UdsError::from_u8(0x7E), Some(UdsError::SubFunctionNotSupportedInActiveSession));
    assert_eq!(UdsError::from_u8(0x93), Some(UdsError::VoltageTooLow));
    assert_eq!(UdsError::from_u8(0x15), None);
    assert_eq!(UdsError::SubFunctionNotSupported.to_byte(), 0x12);
    assert_eq!(UdsError::SecurityAccessDenied.to_byte(), 0x33);
}

#[test]
fn session_and_security_bytes_round_trip() {
    assert_eq!(UdsSessionType::from_byte(0x01), UdsSessionType::Default);
    assert_eq!(UdsSessionType::from_byte(0x02), UdsSessionType::Programming);
    assert_eq!(UdsSessionType::from_byte(0x08), UdsSessionType::StreamMode);
    assert_eq!(UdsSessionType::from_byte(0x55), UdsSessionType::Invalid);
    assert_eq!(UdsSessionType::Programming.to_byte(), 0x02);
    assert_eq!(SecurityLevelAccess::from_byte(0x03), SecurityLevelAccess::Level1RequestSeed);
    assert_eq!(SecurityLevelAccess::from_byte(0x06), SecurityLevelAccess::Level2SendKey);
    assert_eq!(SecurityLevelAccess::from_byte(0x99), SecurityLevelAccess::Locked);
}

#[test]
fn bcd_rendering() {
    assert_eq!(bcd_decode(0x42), "42");
    assert_eq!(bcd_decode(0x09), "09");
    assert_eq!(bcd_decode_slice(&[0x12, 0x34], Some(".")), "12.34");
    assert_eq!(bcd_decode_slice(&[0x12, 0x34, 0x56], None), "123456");
    assert_eq!(bcd_decode_slice(&[], Some("-")), "");
}
