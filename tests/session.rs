use pandacan::version::{CAN_VERSION, HEALTH_VERSION};
use pandacan::{
    CanMessage, Endpoint, HwType, Panda, PandaError, SafetyModel, Transfer, TransferKind,
    UnsafeMode, UsbPowerMode,
};

fn session() -> Panda {
    Panda::new(&[HEALTH_VERSION, CAN_VERSION], 100).unwrap()
}

fn health_with_model(model: u8, uptime: u32) -> Vec<u8> {
    let mut b = vec![0u8; 50];
    b[..4].copy_from_slice(&uptime.to_le_bytes());
    b[38] = model;
    b
}

fn control_out(request: u8, value: u16, index: u16) -> Transfer {
    Transfer { kind: TransferKind::ControlOut, request, value, index, length: 0, timeout_ms: 100 }
}

#[test]
fn newer_can_layout_needs_newer_library() {
    let r = Panda::new(&[HEALTH_VERSION, CAN_VERSION + 1], 100);
    assert!(matches!(r, Err(PandaError::LibraryOutdated { device: 2, supported: 1 })));
}

#[test]
fn older_can_layout_needs_newer_firmware() {
    let r = Panda::new(&[HEALTH_VERSION, CAN_VERSION - 1], 100);
    assert!(matches!(r, Err(PandaError::DeviceOutdated { device: 0, supported: 1 })));
}

#[test]
fn equal_versions_permit_can_traffic() {
    let p = session();
    assert_eq!(p.get_packet_versions().can_version, CAN_VERSION);
    let buf = p.can_send(&[CanMessage { address: 0x200, bus_time: 0, src: 0, len: 1, dat: [7; 8] }]).unwrap();
    let back = p.can_receive(&buf).unwrap();
    assert_eq!((back[0].address, back[0].dat[0]), (0x200, 7));
}

#[test]
fn health_layout_mismatch_is_refused() {
    let r = Panda::new(&[HEALTH_VERSION + 1, CAN_VERSION], 100);
    assert!(matches!(r, Err(PandaError::LibraryOutdated { device: 4, supported: 3 })));
    let r = Panda::new(&[HEALTH_VERSION - 1, CAN_VERSION], 100);
    assert!(matches!(r, Err(PandaError::DeviceOutdated { device: 2, supported: 3 })));
    assert!(matches!(Panda::new(&[3], 100), Err(PandaError::MalformedResponse)));
}

#[test]
fn requests_carry_codes_and_timeout() {
    let p = session();
    assert_eq!(p.timeout_ms(), 100);
    assert_eq!(p.set_safety_model(SafetyModel::Toyota, 73), control_out(0xdc, 2, 73));
    assert_eq!(p.set_fan_speed(1500), control_out(0xb1, 1500, 0));
    assert_eq!(p.set_ir_pwr(50), control_out(0xb0, 50, 0));
    assert_eq!(p.set_loopback(true), control_out(0xe5, 1, 0));
    assert_eq!(p.set_loopback(false), control_out(0xe5, 0, 0));
    assert_eq!(p.set_power_saving(true), control_out(0xe7, 1, 0));
    assert_eq!(p.set_usb_power_mode(UsbPowerMode::Dcp), control_out(0xe6, 3, 0));
    assert_eq!(p.send_heartbeat(), control_out(0xf3, 1, 0));
    assert_eq!(p.set_heartbeat_disabled(), control_out(0xf8, 0, 0));
}

#[test]
fn read_transfers() {
    let p = session();
    let h = p.transfer(Endpoint::Health);
    assert_eq!((h.kind, h.request, h.length, h.timeout_ms), (TransferKind::ControlIn, 0xd2, 50, 100));
    let c = p.transfer(Endpoint::CanRead);
    assert_eq!((c.kind, c.request, c.length), (TransferKind::BulkIn, 0x81, 4096));
    let w = p.transfer(Endpoint::CanWrite);
    assert_eq!((w.kind, w.request), (TransferKind::BulkOut, 0x03));
    assert_eq!(Endpoint::PacketVersions.code(), 0xdd);
    assert_eq!(Endpoint::FirmwareVersionHigher.code(), 0xd4);
    assert_eq!(Endpoint::FirmwareVersionHigher.response_len(), 63);
}

#[test]
fn unsafe_mode_flags_combine() {
    let both = UnsafeMode::disable_disengage_on_gas() | UnsafeMode::disable_stock_aeb();
    assert_eq!(both.bits(), 0x3);
    assert!(both.contains(UnsafeMode::disable_stock_aeb()));
    assert!(!both.contains(UnsafeMode::raise_longitudinal_limits_to_max()));
    assert_eq!(UnsafeMode::all().bits(), 0x0b);
    assert_eq!(UnsafeMode::empty().bits(), 0);
    assert_eq!(UnsafeMode::from_bits(0x08), Some(UnsafeMode::raise_longitudinal_limits_to_max()));
    assert_eq!(UnsafeMode::from_bits(0x04), None);
}

#[test]
fn safety_model() {
    let panda = session();
    let t = panda.set_safety_model(SafetyModel::Silent, 0);
    assert_eq!(t, control_out(0xdc, 0, 0));
    let health = panda.health(&health_with_model(t.value as u8, 1)).expect("Error getting health");
    assert_eq!(SafetyModel::Silent, health.safety_model);

    let t = panda.set_safety_model(SafetyModel::Toyota, 0);
    let health = panda.health(&health_with_model(t.value as u8, 1)).expect("Error getting health");
    assert_eq!(SafetyModel::Toyota, health.safety_model);
}

#[test]
fn unsafe_mode() {
    let panda = session();
    let t = panda.set_unsafe_mode(UnsafeMode::disable_disengage_on_gas() | UnsafeMode::disable_stock_aeb());
    assert_eq!(t, control_out(0xdf, 3, 0));
}

#[test]
fn uptime() {
    let panda = session();
    let health = panda.health(&health_with_model(0, 42)).expect("Error getting health");
    assert!(health.uptime > 0);
}

#[test]
fn hw_type() {
    let panda = session();
    let hw_type = panda.get_hw_type(&[1]).expect("Error getting hw type");
    assert_eq!(HwType::WhitePanda, hw_type);
}

#[test]
fn fw_version() {
    let panda = session();
    panda.get_fw_version(&[0x41; 64], &[0x42; 63]).expect("Error getting fw version");
}

#[test]
fn serial() {
    let panda = session();
    panda.get_serial(b"1b2c3d4e5f607182").expect("Error getting serial");
}

#[test]
fn rtc_and_fan_speed_through_session() {
    let panda = session();
    assert_eq!(panda.get_fan_speed(&[0xdc, 0x05]), Ok(1500));
    assert_eq!(panda.get_rtc(&[0xe4, 0x07, 1, 2, 3, 4, 5, 6]).unwrap().year, 2020);
}
