use ecu_diag::api::UdsServiceResponse;
use ecu_diag::bytes::i32_to_string;
use ecu_diag::bytes::u32_to_string;
use ecu_diag::errors::UdsClientError;
use ecu_diag::isotp::segment_pdu;
use ecu_diag::isotp::IsoTpSettings;
use ecu_diag::isotp_link::isotp_transfer;
use ecu_diag::read_data_by_id::decode_adc_voltage;
use ecu_diag::read_data_by_id::decode_bms1;
use ecu_diag::read_data_by_id::decode_dashboard;
use ecu_diag::read_data_by_id::decode_imu_raw;
use ecu_diag::read_data_by_id::decode_performance_vehicle2;
use ecu_diag::read_data_by_id::decode_temp_sensors;
use ecu_diag::read_data_by_id::encode_adc_voltage;
use ecu_diag::read_data_by_id::encode_bms1;
use ecu_diag::read_data_by_id::encode_dashboard;
use ecu_diag::read_data_by_id::encode_imu_raw;
use ecu_diag::read_data_by_id::encode_performance_vehicle2;
use ecu_diag::read_data_by_id::encode_temp_sensors;
use ecu_diag::read_data_by_id::AdcVoltageRecord;
use ecu_diag::read_data_by_id::Bms1Record;
use ecu_diag::read_data_by_id::DataId;
use ecu_diag::read_data_by_id::ImuRawRecord;
use ecu_diag::read_data_by_id::PerformanceVehicle2Record;
use ecu_diag::read_data_by_id::TempSensorsRecord;
use ecu_diag::read_data_by_id::UdsMonitorViewResponse;
use ecu_diag::read_data_by_id::UdsMonitorViewResponseDetail;
use ecu_diag::uds::UDSClientSession;

#[test]
fn decimal_rendering() {
    assert_eq!(u32_to_string(0), "0");
    assert_eq!(u32_to_string(7), "7");
    assert_eq!(u32_to_string(1234567890), "1234567890");
    assert_eq!(i32_to_string(-87), "-87");
    assert_eq!(i32_to_string(0), "0");
    assert_eq!(i32_to_string(i32::MIN), "-2147483648");
}

#[test]
fn did_request_bytes() {
    let client = UDSClientSession::new_client();
    assert_eq!(client.uds_read_data_by_id_request(DataId::AdcVoltage), vec![0x22, 0x01, 0x07]);
    assert_eq!(client.uds_read_data_by_id_request(DataId::Dashboard), vec![0x22, 0x01, 0x09]);
    assert_eq!(DataId::BikeState.to_bytes(), vec![0x01, 0x00]);
    assert_eq!(DataId::DiagState.to_bytes(), vec![0x01, 0x10]);
}

#[test]
fn bike_state_text_exact() {
    let t = DataId::BikeState.parse_result(&[3, 1]).unwrap();
    assert_eq!(t, "Bike State: 3, Bike Lock: 1");
    let bad = DataId::BikeState.parse_result(&[3]).unwrap();
    assert_eq!(bad, "Invalid data length for BikeState");
}

#[test]
fn diag_state_text_exact() {
    let t = DataId::DiagState.parse_result(&[2, 4]).unwrap();
    assert_eq!(t, "Session State: 2\nSecurity State: 4\n");
}

#[test]
fn firmware_version_text_exact() {
    // 16-bit words are little-endian in the payload
    let t = DataId::FirmwareVersion.parse_result(&[1, 0, 2, 0, 3, 4]).unwrap();
    assert_eq!(
        t,
        "148 Major Version: 1\n 148 Minor Version: 2\n 118 Major Version: 3\n118 Minor Version: 4\n"
    );
}

#[test]
fn bms2_text_exact() {
    let t = DataId::Bms2.parse_result(&[0x10, 0x00, 0x20, 0x00, 0x0A, 0x10, 0x05, 0x10]).unwrap();
    assert_eq!(
        t,
        "Max discharge current: 16\n Max regen current: 32\n Highest cell voltage: 4106\n Lowest cell voltage: 4101\n "
    );
}

#[test]
fn keyfob_text_exact() {
    let t = DataId::KeyfobState.parse_result(&[1, 0, 77]).unwrap();
    assert_eq!(t, "RKE: 1, PKE: 0, PKE Distance: 77");
}

#[test]
fn float_record_identifiers_have_no_text() {
    assert!(DataId::AdcVoltage.parse_result(&[0; 20]).is_none());
    assert!(DataId::Dashboard.parse_result(&[0; 201]).is_none());
    assert!(DataId::ImuRaw.parse_result(&[0; 24]).is_none());
}

#[test]
fn adc_record_carries_float_bit_patterns() {
    // 20-byte payload of five little-endian 32-bit floats
    let floats: [f32; 5] = [12.34, 5.01, 3.33, 50.0, 49.5];
    let mut payload: Vec<u8> = Vec::new();
    for f in floats {
        payload.extend_from_slice(&f.to_le_bytes());
    }
    let rec = decode_adc_voltage(&payload).unwrap();
    assert_eq!(rec.volt_12v, floats[0].to_bits());
    assert_eq!(rec.volt_5v, floats[1].to_bits());
    assert_eq!(rec.volt_3v, floats[2].to_bits());
    assert_eq!(rec.throttle_pct, floats[3].to_bits());
    assert_eq!(rec.throttle_filt, floats[4].to_bits());
    assert_eq!(f32::from_bits(rec.volt_12v), 12.34);
    assert_eq!(
        decode_adc_voltage(&payload[1..]),
        Err(UdsClientError::InvalidResponseLength)
    );
}

#[test]
fn record_codecs_round_trip() {
    let imu = ImuRawRecord {
        acc_x: (1.5f32).to_bits(),
        acc_y: (-2.0f32).to_bits(),
        acc_z: 3,
        gyr_x: 4,
        gyr_y: 5,
        gyr_z: 6,
    };
    assert_eq!(decode_imu_raw(&encode_imu_raw(&imu)).unwrap(), imu);

    let adc = AdcVoltageRecord {
        volt_12v: (12.1f32).to_bits(),
        volt_5v: 2,
        volt_3v: 3,
        throttle_pct: 4,
        throttle_filt: 5,
    };
    assert_eq!(decode_adc_voltage(&encode_adc_voltage(&adc)).unwrap(), adc);

    let temps = TempSensorsRecord { temp1: 1, temp2: 2, temp3: 3, temp4: 4 };
    assert_eq!(decode_temp_sensors(&encode_temp_sensors(&temps)).unwrap(), temps);

    let pv2 = PerformanceVehicle2Record {
        efficiency: 10,
        power_pct: 20,
        speed: 30,
        tripid: 4,
        trip_action: 5,
        range: 6,
    };
    assert_eq!(decode_performance_vehicle2(&encode_performance_vehicle2(&pv2)).unwrap(), pv2);

    let bms = Bms1Record {
        status: 1,
        predischarge_relay: 0,
        discharge_relay: 1,
        charging_relay: 0,
        dcdc_enable: 1,
        charger: 0,
        soc_pct: 88,
        soh_pct: 97,
        volt: (52.3f32).to_bits(),
        current: (-1.25f32).to_bits(),
        alive_counter: 13,
        dcdc_enable_status: 1,
    };
    assert_eq!(decode_bms1(&encode_bms1(&bms)).unwrap(), bms);
}

fn sample_dashboard() -> UdsMonitorViewResponseDetail {
    UdsMonitorViewResponseDetail {
        bike_status: 2,
        bike_lock: 1,
        acc_x: (0.25f32).to_bits(),
        acc_y: (-0.5f32).to_bits(),
        gyr_z: (9.81f32).to_bits(),
        adc_12v: (12.6f32).to_bits(),
        bms_volt: (51.7f32).to_bits(),
        bms_current: (-3.5f32).to_bits(),
        bms_max_discharge_current: 120,
        bms_highest_cell_volt: 4200,
        bms_charge_discharge_cycles: 321,
        fw_tm_major: 7,
        fw_tm_minor: 11,
        fw_rt_major: 1,
        fw_rt_minor: 2,
        vm_odometer: 123456,
        vm_tripa: 1000,
        vm_tripb: 2000,
        vm_last_charge: 77,
        vm_speed: (88.5f32).to_bits(),
        vm_tripid: 9,
        vm_range: 55,
        cm_target_charge_range: 260,
        cm_va_limit: 1500,
        temp1: (21.0f32).to_bits(),
        obc_output_dc_volt: 540,
        obc_output_dc_current: 12,
        cpu_118: 33,
        cpu_148: 44,
        ..UdsMonitorViewResponseDetail::default()
    }
}

#[test]
fn dashboard_codec_round_trips() {
    let d = sample_dashboard();
    let bytes = encode_dashboard(&d);
    assert_eq!(bytes.len(), 201);
    assert_eq!(decode_dashboard(&bytes).unwrap(), d);
}

#[test]
fn dashboard_multi_frame_reply_decodes_to_the_record() {
    // the full path of a monitor-view read: a positive reply PDU travels
    // segmented over the transport and decodes back into the record
    let d = sample_dashboard();
    let mut pdu: Vec<u8> = vec![0x62, 0x01, 0x09];
    pdu.extend_from_slice(&encode_dashboard(&d));
    assert_eq!(pdu.len(), 204);

    let cfg = IsoTpSettings::default();
    let frames = segment_pdu(&pdu, true).unwrap();
    assert_eq!(frames.len(), 1 + 204 / 7);
    let delivered = isotp_transfer(&pdu, &cfg).unwrap();
    assert_eq!(delivered, pdu);

    let mut client = UDSClientSession::new_client();
    match client.uds_read_data_by_id_return_struct(DataId::Dashboard, &delivered) {
        UdsMonitorViewResponse::Success(rec) => assert_eq!(rec, d),
        UdsMonitorViewResponse::Fail => panic!("positive reply must decode"),
    }
}

#[test]
fn dashboard_negative_reply_fails() {
    let mut client = UDSClientSession::new_client();
    assert!(matches!(
        client.uds_read_data_by_id_return_struct(DataId::Dashboard, &[0x7F, 0x22, 0x31]),
        UdsMonitorViewResponse::Fail
    ));
    assert!(matches!(
        client.uds_read_data_by_id_return_struct(DataId::Dashboard, &[]),
        UdsMonitorViewResponse::Fail
    ));
}

#[test]
fn read_data_reply_dispatch() {
    let mut client = UDSClientSession::new_client();
    // positive reply carrying a bike-state record
    let r = client.uds_read_data_by_id(DataId::BikeState, &[0x62, 0x01, 0x00, 3, 1]).unwrap();
    match r {
        UdsServiceResponse::Success(d) => {
            assert_eq!(d.console_output, "Bike State: 3, Bike Lock: 1")
        }
        UdsServiceResponse::Fail(d) => panic!("unexpected failure: {}", d.console_output),
    }
    // a record rendered by the front end yields nothing here
    assert!(client.uds_read_data_by_id(DataId::AdcVoltage, &[0x62, 0x01, 0x07]).is_none());
    // failures
    match client.uds_read_data_by_id(DataId::BikeState, &[0x7F, 0x22, 0x31]).unwrap() {
        UdsServiceResponse::Fail(d) => assert_eq!(d.console_output, "FAIL\nNEGATIVE UDS RESPONSE"),
        UdsServiceResponse::Success(_) => panic!("negative reply must not succeed"),
    }
    match client.uds_read_data_by_id(DataId::BikeState, &[]).unwrap() {
        UdsServiceResponse::Fail(d) => assert_eq!(d.console_output, "FAIL\nEMPTY UDS RESPONSE"),
        UdsServiceResponse::Success(_) => panic!("empty reply must not succeed"),
    }
}
