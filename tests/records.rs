use pandacan::records::{assemble_fw_version, decode_hw_type, decode_serial, decode_u16};
use pandacan::{Health, HwType, PacketVersions, PandaError, RtcTime, SafetyModel};

fn health_fixture() -> Vec<u8> {
    let mut b = Vec::new();
    for w in [12345u32, 12000, 450, 1, 2, 3, 4, 0x10] {
        b.extend_from_slice(&w.to_le_bytes());
    }
    b.extend_from_slice(&[1, 0, 1, 0, 2, 3]);
    b.push(2);
    b.extend_from_slice(&(-2i16).to_le_bytes());
    b.extend_from_slice(&[5, 1, 0]);
    b.extend_from_slice(&0x0102u16.to_le_bytes());
    b.extend_from_slice(&77u32.to_le_bytes());
    b
}

#[test]
fn health_decodes_known_fields() {
    let b = health_fixture();
    assert_eq!(b.len(), 50);
    let h = Health::decode(&b).unwrap();
    assert_eq!(h.uptime, 12345);
    assert_eq!(h.safety_model, SafetyModel::Toyota);
    assert_eq!((h.voltage, h.current), (12000, 450));
    assert_eq!((h.can_rx_errs, h.can_send_errs, h.can_fwd_errs, h.gmlan_send_errs), (1, 2, 3, 4));
    assert_eq!(h.faults, 0x10);
    assert_eq!((h.ignition_line, h.ignition_can, h.controls_allowed), (1, 0, 1));
    assert_eq!((h.gas_interceptor_detected, h.car_harness_status, h.usb_power_mode), (0, 2, 3));
    assert_eq!(h.safety_param, -2);
    assert_eq!((h.fault_status, h.power_save_enabled, h.heartbeat_lost), (5, 1, 0));
    assert_eq!(h.unsafe_mode, 0x0102);
    assert_eq!(h.blocked_msg_cnt, 77);
}

#[test]
fn health_rejects_wrong_size() {
    let b = health_fixture();
    assert_eq!(Health::decode(&b[..49]).unwrap_err(), PandaError::MalformedResponse);
    let mut long = b.clone();
    long.push(0);
    assert_eq!(Health::decode(&long).unwrap_err(), PandaError::MalformedResponse);
    assert_eq!(Health::decode(&[]).unwrap_err(), PandaError::MalformedResponse);
}

#[test]
fn health_rejects_unused_safety_model_code() {
    let mut b = health_fixture();
    b[38] = 7;
    assert_eq!(Health::decode(&b).unwrap_err(), PandaError::UnknownEnumValue(7));
    b[38] = 25;
    assert_eq!(Health::decode(&b).unwrap_err(), PandaError::UnknownEnumValue(25));
}

#[test]
fn safety_model_codes() {
    assert_eq!(SafetyModel::from_code(7), Err(PandaError::UnknownEnumValue(7)));
    assert_eq!(SafetyModel::from_code(12), Err(PandaError::UnknownEnumValue(12)));
    assert_eq!(SafetyModel::from_code(0), Ok(SafetyModel::Silent));
    assert_eq!(SafetyModel::from_code(8), Ok(SafetyModel::Hyundai));
    assert_eq!(SafetyModel::from_code(24), Ok(SafetyModel::HyundaiCommunity));
    assert_eq!(SafetyModel::Toyota.code(), 2);
    assert_eq!(SafetyModel::AllOutput.code(), 17);
    for c in 0u8..=255 {
        if let Ok(m) = SafetyModel::from_code(c) {
            assert_eq!(m.code(), c);
        }
    }
}

#[test]
fn packet_versions_decode() {
    let v = PacketVersions::new(&[3, 1]).unwrap();
    assert_eq!((v.health_version, v.can_version), (3, 1));
    assert_eq!(PacketVersions::new(&[3]).unwrap_err(), PandaError::MalformedResponse);
    assert_eq!(PacketVersions::new(&[3, 1, 0]).unwrap_err(), PandaError::MalformedResponse);
}

#[test]
fn rtc_decode() {
    let t = RtcTime::decode(&[0xe4, 0x07, 5, 17, 2, 13, 45, 30]).unwrap();
    assert_eq!(t.year, 2020);
    assert_eq!((t.month, t.day, t.weekday, t.hour, t.minute, t.second), (5, 17, 2, 13, 45, 30));
    assert_eq!(RtcTime::decode(&[0; 7]).unwrap_err(), PandaError::MalformedResponse);
}

#[test]
fn hw_type_decode() {
    assert_eq!(decode_hw_type(&[3]), Ok(HwType::BlackPanda));
    assert_eq!(decode_hw_type(&[6]), Ok(HwType::Dos));
    assert_eq!(decode_hw_type(&[7]), Err(PandaError::UnknownEnumValue(7)));
    assert_eq!(decode_hw_type(&[]), Err(PandaError::MalformedResponse));
}

#[test]
fn fan_speed_decode() {
    assert_eq!(decode_u16(&[0x34, 0x12]), Ok(0x1234));
    assert_eq!(decode_u16(&[0x34]), Err(PandaError::MalformedResponse));
}

#[test]
fn serial_decode() {
    let s = decode_serial(b"0123456789abcdef").unwrap();
    assert_eq!(s, "0123456789abcdef");
    assert_eq!(decode_serial(b"0123").unwrap_err(), PandaError::MalformedResponse);
    let mut bad = *b"0123456789abcdef";
    bad[3] = 0xc3;
    assert_eq!(decode_serial(&bad).unwrap_err(), PandaError::MalformedResponse);
}

#[test]
fn fw_version_parts_leave_gap() {
    let lower = [0x11u8; 64];
    let upper = [0x22u8; 63];
    let v = assemble_fw_version(&lower, &upper).unwrap();
    assert!(v[..64].iter().all(|&b| b == 0x11));
    assert_eq!(v[64], 0);
    assert!(v[65..].iter().all(|&b| b == 0x22));
    let short = assemble_fw_version(b"v1.2", b"abc").unwrap();
    assert_eq!(&short[..4], b"v1.2");
    assert_eq!(&short[65..68], b"abc");
    assert!(short[4..65].iter().all(|&b| b == 0));
    assert!(short[68..].iter().all(|&b| b == 0));
    assert_eq!(assemble_fw_version(&[0; 65], &[]).unwrap_err(), PandaError::MalformedResponse);
    assert_eq!(assemble_fw_version(&[], &[0; 64]).unwrap_err(), PandaError::MalformedResponse);
}
