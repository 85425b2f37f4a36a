use ecu_diag::api::UdsServiceResponse;
use ecu_diag::correlator::render_connectivity_result;
use ecu_diag::correlator::TcpCorrelator;
use ecu_diag::correlator::WifiScanInfo;
use ecu_diag::routine_control::Domain;
use ecu_diag::routine_control::RoutineAction;
use ecu_diag::routine_control::RoutineControlSubfcn;
use ecu_diag::routine_control::RoutineId;
use ecu_diag::routine_control::ServiceRequest;
use ecu_diag::routine_control::ServiceResponse;
use ecu_diag::routine_results::routine_result_text;
use ecu_diag::uds::UDSClientSession;

const SIGNAL_MAP: &str = "\n Signal Strength Map:\n rsrp >= -80.0 => Excellent\n\nrsrp >= -90.0 => Good\n\nrsrp >= -100.0 => Fair to poor\n\nrsrp >= -120.0 => very poor signal";

#[test]
fn signal_strength_request_and_correlated_result() {
    // the front end starts the signal-strength routine: the client
    // relays it to the gateway rather than driving it over the link
    let client = UDSClientSession::new_client();
    let rid = RoutineId::LteGetSignalStrength.to_bytes();
    assert_eq!(rid, vec![0x02, 0x18]);
    let action = client.uds_routine_control(RoutineControlSubfcn::StartRoutine, &rid, &[]);
    let req = match action {
        RoutineAction::SendTcp(req) => req,
        RoutineAction::SendUds(_) => panic!("connectivity routine must go to the gateway"),
    };
    assert_eq!(req.domain, Domain::Lte);
    assert_eq!(req.command, 5);
    assert_eq!(req.to_json(), "{\"domain\":\"Lte\",\"command\":5}");

    // later the gateway pushes the answer; fetching the result pops it
    let mut correlator = TcpCorrelator::new();
    let mut answer = ServiceResponse {
        domain: Domain::Lte,
        command: 5,
        response: String::from("-87"),
    };
    answer.parse_response();
    correlator.push_response(answer);
    let popped = correlator.try_pop().unwrap();
    let text = render_connectivity_result(Some(&popped), correlator.connected());
    let expected = format!("SUCCESS\n-87{}", SIGNAL_MAP);
    assert_eq!(text, expected);
    assert!(text.starts_with("SUCCESS\n-87\n Signal Strength Map:"));
}

#[test]
fn correlator_is_first_in_first_out_and_drops_nothing() {
    let mut c = TcpCorrelator::new();
    for i in 0..5u8 {
        c.push_response(ServiceResponse {
            domain: Domain::Wifi,
            command: i,
            response: format!("answer {}", i),
        });
    }
    assert_eq!(c.pending_len(), 5);
    for i in 0..5u8 {
        let m = c.try_pop().unwrap();
        assert_eq!(m.command, i);
        assert_eq!(m.response, format!("answer {}", i));
    }
    assert!(c.try_pop().is_none());
}

#[test]
fn empty_and_disconnected_results() {
    let mut c = TcpCorrelator::new();
    assert!(c.try_pop().is_none());
    let text = render_connectivity_result(None, c.connected());
    assert_eq!(
        text,
        "SUCCESS\nNO RESULT TO SHOW\nNO SERVICE IS RUNNING OR CURRENT SERVICE IS STILL RUNNING"
    );
    c.disconnect();
    let text = render_connectivity_result(None, c.connected());
    assert_eq!(text, "SUCCESS\nNO RESULT: RECEIVING CHANNEL IS DISCONNECTED. TRY RESTART THE APP");
}

#[test]
fn non_connectivity_routines_go_over_the_link() {
    let client = UDSClientSession::new_client();
    let rid = RoutineId::SimulateInput.to_bytes();
    let action = client.uds_routine_control(RoutineControlSubfcn::StartRoutine, &rid, &[0x0A]);
    match action {
        RoutineAction::SendUds(bytes) => assert_eq!(bytes, vec![0x31, 0x01, 0x02, 0x04, 0x0A]),
        RoutineAction::SendTcp(_) => panic!("routine must go over the link"),
    }
}

#[test]
fn negative_routine_reply_fails_and_leaves_session_alone() {
    let mut client = UDSClientSession::new_client();
    let before = client.current_diag_mode.clone();
    match client.uds_routine_control_reply(&[0x7F, 0x31, 0x7E]) {
        UdsServiceResponse::Fail(d) => assert_eq!(d.console_output, "FAIL\nNEGATIVE UDS RESPONSE"),
        UdsServiceResponse::Success(_) => panic!("negative reply must not succeed"),
    }
    assert_eq!(client.current_diag_mode, before);
    match client.uds_routine_control_reply(&[0x71, 0x01, 0x02, 0x04]) {
        UdsServiceResponse::Success(d) => assert_eq!(d.console_output, "SUCCESS"),
        UdsServiceResponse::Fail(_) => panic!("positive reply must succeed"),
    }
}

#[test]
fn routine_setup_plan_follows_session_state() {
    let mut client = UDSClientSession::new_client();
    assert_eq!(client.uds_routine_control_setup(), (true, true));
    let _ = client.uds_set_session_mode(
        ecu_diag::diagnostic_session_control::UdsSessionType::Programming,
        &[0x50, 0x02],
    );
    client
        .uds_security_access_send_key(
            ecu_diag::security_access::SecurityLevelAccess::Level1SendKey,
            &[0x67, 0x04],
        )
        .unwrap();
    assert_eq!(client.uds_routine_control_setup(), (false, false));
    assert_eq!(client.uds_routine_control_setup_get_result(), (false, false));
}

#[test]
fn wifi_scan_result_text() {
    // no scan result marker
    let resp = [0x71, 0x03, 0x02, 0x0D, 0xFF, 0xFF, 0xFF];
    assert_eq!(routine_result_text(&resp), "SUCCESS\nNO WIFI SCAN RESULT");
    // five networks, best signal -87 (big-endian two's complement)
    let resp = [0x71, 0x03, 0x02, 0x0D, 5, 0xFF, 0xA9];
    assert_eq!(
        routine_result_text(&resp),
        "SUCCESS\nNumber of wifi Scan: 5\nBest Signal Strength: -87"
    );
}

#[test]
fn wifi_and_lte_ip_result_texts() {
    let resp = [0x71, 0x03, 0x02, 0x0E, 0, 0, 0, 0, 0xFF];
    assert_eq!(routine_result_text(&resp), "SUCCESS\nNO WIFI IP");
    let resp = [0x71, 0x03, 0x02, 0x0E, 192, 168, 7, 2, 0];
    assert_eq!(routine_result_text(&resp), "SUCCESS\nWIFI IP: 192.168.7.2");
    let resp = [0x71, 0x03, 0x02, 0x11, 10, 0, 0, 1, 0];
    assert_eq!(routine_result_text(&resp), "SUCCESS\nLTE IP: 10.0.0.1");
    let resp = [0x71, 0x03, 0x02, 0x11, 0, 0, 0, 0, 0xFF];
    assert_eq!(routine_result_text(&resp), "SUCCESS\nNO LTE IP");
}

#[test]
fn gps_log_result_uses_the_calendar() {
    // 2024-05-01 12:30:45
    let resp = [0x71, 0x03, 0x02, 0x10, 0x07, 0xE8, 5, 1, 12, 30, 45];
    assert_eq!(
        routine_result_text(&resp),
        "SUCCESS\nLAST VALID GPS LOG TIMESTAMP: 2024-05-01 12:30:45"
    );
    // month 13 names no date
    let resp = [0x71, 0x03, 0x02, 0x10, 0x07, 0xE8, 13, 1, 12, 30, 45];
    assert_eq!(routine_result_text(&resp), "SUCCESS\nLAST VALID GPS LOG TIMESTAMP: INVALID");
    // 2023-02-29 does not exist; 2024-02-29 does
    let resp = [0x71, 0x03, 0x02, 0x10, 0x07, 0xE7, 2, 29, 0, 0, 0];
    assert_eq!(routine_result_text(&resp), "SUCCESS\nLAST VALID GPS LOG TIMESTAMP: INVALID");
    let resp = [0x71, 0x03, 0x02, 0x10, 0x07, 0xE8, 2, 29, 0, 0, 0];
    assert_eq!(
        routine_result_text(&resp),
        "SUCCESS\nLAST VALID GPS LOG TIMESTAMP: 2024-02-29 00:00:00"
    );
    // all-ones marker means no log at all
    let resp = [0x71, 0x03, 0x02, 0x10, 0xFF, 0xFF, 0xFF, 0xFF];
    assert_eq!(routine_result_text(&resp), "SUCCESS\nNO GPS LOG");
}

#[test]
fn modem_and_service_status_result_texts() {
    let resp = [0x71, 0x03, 0x02, 0x14, 0x0C, 0x00, 0x2A, 0x01];
    assert_eq!(
        routine_result_text(&resp),
        "SUCCESS\nMODEM STATE: CONNECTED\nSIGNAL QUALITY: 42\nHAS OPERATOR: true"
    );
    let resp = [0x71, 0x03, 0x02, 0x17, 1, 0, 1, 1, 0];
    assert_eq!(
        routine_result_text(&resp),
        "SUCCESS\nMQTT: true\nICOM: false\nSERVICE MANAGER: true\nLOGGING: true\nOTA: false\n"
    );
}

#[test]
fn routine_failure_codes_are_named() {
    assert_eq!(routine_result_text(&[0x7F, 0x31, 0xA0]), "FAIL due to Service In Progress");
    assert_eq!(routine_result_text(&[0x7F, 0x31, 0xA1]), "FAIL due to Incorrect Service ID");
    assert_eq!(routine_result_text(&[0x7F, 0x31, 0xA2]), "FAIL due to Invalid Routine Result");
    assert_eq!(routine_result_text(&[0x7F, 0x31, 0x31]), "FAIL due to unknown error");
    assert_eq!(routine_result_text(&[]), "FAIL due to unknown error");
}

#[test]
fn wifi_scan_listing_renders_pairwise() {
    let info = WifiScanInfo {
        names: vec![String::from("home"), String::from("shed")],
        signal_strength: vec![-40, -71],
    };
    assert_eq!(
        info.render(),
        "Name: home, Signal Strength: -40\nName: shed, Signal Strength: -71\n"
    );
    let empty = WifiScanInfo::new();
    assert_eq!(empty.render(), "");
}

#[test]
fn wifi_scan_parse_marker() {
    let raw = ServiceResponse {
        domain: Domain::Wifi,
        command: 1,
        response: String::from("{\"names\":[],\"signal_strength\":[]}"),
    };
    assert!(raw.needs_wifi_scan_parse());
    let none = ServiceResponse {
        domain: Domain::Wifi,
        command: 1,
        response: String::from("NO SCAN RESULT"),
    };
    assert!(!none.needs_wifi_scan_parse());
}

#[test]
fn domain_names_round_trip() {
    assert_eq!(Domain::from_name("Lte"), Domain::Lte);
    assert_eq!(Domain::from_name("Wifi"), Domain::Wifi);
    assert_eq!(Domain::from_name("whatever"), Domain::InvalidDomain);
    assert_eq!(Domain::Gps.name(), "Gps");
    let req = ServiceRequest { domain: Domain::Imx, command: 1 };
    assert_eq!(req.to_json(), "{\"domain\":\"Imx\",\"command\":1}");
}
