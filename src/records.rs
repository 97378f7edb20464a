use vstd::prelude::*;

use crate::bytes::{le_u16, le_u32, read_le_u16, read_le_u32};
use crate::error::PandaError;
use crate::types::{safety_model_of, HwType, SafetyModel, hw_type_of};

verus! {

/// Byte count of a health record: the device lays its fields out packed,
/// little-endian, in declaration order.
pub const HEALTH_SIZE: usize = 50;

/// Byte count of the packet-version record.
pub const PACKET_VERSIONS_SIZE: usize = 2;

/// Byte count of the real-time-clock record.
pub const RTC_SIZE: usize = 8;

/// Byte count of the serial number.
pub const SERIAL_SIZE: usize = 16;

/// Byte count of the whole firmware version.
pub const FW_VERSION_SIZE: usize = 128;

/// Byte count of the first firmware-version part.
pub const FW_VERSION_LOWER_SIZE: usize = 64;

/// Offset at which the second firmware-version part is stored.
pub const FW_VERSION_UPPER_OFFSET: usize = 65;

/// A snapshot of the device's telemetry.
#[derive(Debug, Clone, Copy, PartialEq, Eq, Structural)]
pub struct Health {
    pub uptime: u32,
    pub voltage: u32,
    pub current: u32,
    pub can_rx_errs: u32,
    pub can_send_errs: u32,
    pub can_fwd_errs: u32,
    pub gmlan_send_errs: u32,
    pub faults: u32,
    pub ignition_line: u8,
    pub ignition_can: u8,
    pub controls_allowed: u8,
    pub gas_interceptor_detected: u8,
    pub car_harness_status: u8,
    pub usb_power_mode: u8,
    pub safety_model: SafetyModel,
    pub safety_param: i16,
    pub fault_status: u8,
    pub power_save_enabled: u8,
    pub heartbeat_lost: u8,
    pub unsafe_mode: u16,
    pub blocked_msg_cnt: u32,
}

/// The outcome of decoding the health record `b`: each field is read at
/// its offset with its width; a wrong length or an unknown safety-model
/// code is reported.
pub open spec fn health_result(b: Seq<u8>) -> Result<Health, PandaError> {
    if b.len() != 50 {
        Err(PandaError::MalformedResponse)
    } else {
        match safety_model_of(b[38]) {
            None => Err(PandaError::UnknownEnumValue(b[38])),
            Some(safety_model) => Ok(
                Health {
                    uptime: le_u32(b, 0),
                    voltage: le_u32(b, 4),
                    current: le_u32(b, 8),
                    can_rx_errs: le_u32(b, 12),
                    can_send_errs: le_u32(b, 16),
                    can_fwd_errs: le_u32(b, 20),
                    gmlan_send_errs: le_u32(b, 24),
                    faults: le_u32(b, 28),
                    ignition_line: b[32],
                    ignition_can: b[33],
                    controls_allowed: b[34],
                    gas_interceptor_detected: b[35],
                    car_harness_status: b[36],
                    usb_power_mode: b[37],
                    safety_model,
                    safety_param: le_u16(b, 39) as i16,
                    fault_status: b[41],
                    power_save_enabled: b[42],
                    heartbeat_lost: b[43],
                    unsafe_mode: le_u16(b, 44),
                    blocked_msg_cnt: le_u32(b, 46),
                },
            ),
        }
    }
}

impl Health {
    /// Decodes a health record. The buffer must hold exactly one record,
    /// and its safety-model byte must be a known code.
    pub fn decode(buf: &[u8]) -> (r: Result<Health, PandaError>)
        ensures
            r == health_result(buf@),
    {
        if buf.len() != HEALTH_SIZE {
            return Err(PandaError::MalformedResponse);
        }
        let safety_model = match SafetyModel::from_code(buf[38]) {
            Ok(m) => m,
            Err(e) => {
                return Err(e);
            },
        };
        let safety_param = read_le_u16(buf, 39) as i16;
        Ok(Health {
            uptime: read_le_u32(buf, 0),
            voltage: read_le_u32(buf, 4),
            current: read_le_u32(buf, 8),
            can_rx_errs: read_le_u32(buf, 12),
            can_send_errs: read_le_u32(buf, 16),
            can_fwd_errs: read_le_u32(buf, 20),
            gmlan_send_errs: read_le_u32(buf, 24),
            faults: read_le_u32(buf, 28),
            ignition_line: buf[32],
            ignition_can: buf[33],
            controls_allowed: buf[34],
            gas_interceptor_detected: buf[35],
            car_harness_status: buf[36],
            usb_power_mode: buf[37],
            safety_model,
            safety_param,
            fault_status: buf[41],
            power_save_enabled: buf[42],
            heartbeat_lost: buf[43],
            unsafe_mode: read_le_u16(buf, 44),
            blocked_msg_cnt: read_le_u32(buf, 46),
        })
    }
}

/// The packet-format versions that the device declares.
#[derive(Debug, Clone, Copy, PartialEq, Eq, Structural)]
pub struct PacketVersions {
    pub health_version: u8,
    pub can_version: u8,
}

/// The outcome of decoding the two-byte version record `b`.
pub open spec fn packet_versions_result(b: Seq<u8>) -> Result<PacketVersions, PandaError> {
    if b.len() != 2 {
        Err(PandaError::MalformedResponse)
    } else {
        Ok(PacketVersions { health_version: b[0], can_version: b[1] })
    }
}

impl PacketVersions {
    /// Decodes the two-byte version record: health version, then CAN version.
    pub fn new(buf: &[u8]) -> (r: Result<PacketVersions, PandaError>)
        ensures
            r == packet_versions_result(buf@),
    {
        if buf.len() != PACKET_VERSIONS_SIZE {
            return Err(PandaError::MalformedResponse);
        }
        Ok(PacketVersions { health_version: buf[0], can_version: buf[1] })
    }
}

/// The device's real-time clock.
#[derive(Debug, Clone, Copy, PartialEq, Eq, Structural)]
pub struct RtcTime {
    pub year: u16,
    pub month: u8,
    pub day: u8,
    pub weekday: u8,
    pub hour: u8,
    pub minute: u8,
    pub second: u8,
}

/// The outcome of decoding the eight-byte clock record `b`.
pub open spec fn rtc_result(b: Seq<u8>) -> Result<RtcTime, PandaError> {
    if b.len() != 8 {
        Err(PandaError::MalformedResponse)
    } else {
        Ok(
            RtcTime {
                year: le_u16(b, 0),
                month: b[2],
                day: b[3],
                weekday: b[4],
                hour: b[5],
                minute: b[6],
                second: b[7],
            },
        )
    }
}

impl RtcTime {
    /// Decodes the eight-byte clock record: a little-endian year, then
    /// month, day, weekday, hour, minute and second.
    pub fn decode(buf: &[u8]) -> (r: Result<RtcTime, PandaError>)
        ensures
            r == rtc_result(buf@),
    {
        if buf.len() != RTC_SIZE {
            return Err(PandaError::MalformedResponse);
        }
        Ok(
            RtcTime {
                year: read_le_u16(buf, 0),
                month: buf[2],
                day: buf[3],
                weekday: buf[4],
                hour: buf[5],
                minute: buf[6],
                second: buf[7],
            },
        )
    }
}

/// The outcome of decoding the one-byte hardware-type record `b`.
pub open spec fn hw_type_result(b: Seq<u8>) -> Result<HwType, PandaError> {
    if b.len() != 1 {
        Err(PandaError::MalformedResponse)
    } else {
        match hw_type_of(b[0]) {
            Some(t) => Ok(t),
            None => Err(PandaError::UnknownEnumValue(b[0])),
        }
    }
}

/// Decodes the one-byte hardware-type record.
pub fn decode_hw_type(buf: &[u8]) -> (r: Result<HwType, PandaError>)
    ensures
        r == hw_type_result(buf@),
{
    if buf.len() != 1 {
        return Err(PandaError::MalformedResponse);
    }
    HwType::from_code(buf[0])
}

/// The outcome of decoding a two-byte little-endian value `b`.
pub open spec fn u16_result(b: Seq<u8>) -> Result<u16, PandaError> {
    if b.len() != 2 {
        Err(PandaError::MalformedResponse)
    } else {
        Ok(le_u16(b, 0))
    }
}

/// Decodes a two-byte little-endian value, as the fan speed is reported.
pub fn decode_u16(buf: &[u8]) -> (r: Result<u16, PandaError>)
    ensures
        r == u16_result(buf@),
{
    if buf.len() != 2 {
        return Err(PandaError::MalformedResponse);
    }
    Ok(read_le_u16(buf, 0))
}

/// Every byte of `b` is an ASCII code.
pub open spec fn all_ascii(b: Seq<u8>) -> bool {
    forall|i: int| 0 <= i < b.len() ==> #[trigger] b[i] < 128
}

/// The characters of ASCII bytes, one per byte.
pub open spec fn ascii_chars(b: Seq<u8>) -> Seq<char> {
    b.map_values(|x: u8| x as char)
}

/// Relies on std's `String::from_utf8`: ASCII bytes are valid UTF-8, so the
/// call succeeds and each byte becomes the character of the same code.
#[verifier::external_body]
fn ascii_to_string(b: Vec<u8>) -> (s: String)
    requires
        all_ascii(b@),
    ensures
        s@ == ascii_chars(b@),
{
    String::from_utf8(b).unwrap_or_default()
}

/// `r` is the outcome of decoding the serial number `b`: 16 ASCII bytes
/// become their characters, anything else is malformed.
pub open spec fn serial_decoded_as(b: Seq<u8>, r: Result<String, PandaError>) -> bool {
    if b.len() == 16 && all_ascii(b) {
        r is Ok && r->Ok_0@ == ascii_chars(b)
    } else {
        r == Err::<String, PandaError>(PandaError::MalformedResponse)
    }
}

/// Decodes the 16-byte serial number, which the device sends as ASCII.
pub fn decode_serial(buf: &[u8]) -> (r: Result<String, PandaError>)
    ensures
        serial_decoded_as(buf@, r),
{
    if buf.len() != SERIAL_SIZE {
        return Err(PandaError::MalformedResponse);
    }
    let mut bytes: Vec<u8> = Vec::new();
    let mut i: usize = 0;
    while i < buf.len()
        invariant
            i <= buf@.len(),
            bytes@ == buf@.subrange(0, i as int),
            all_ascii(bytes@),
        decreases buf@.len() - i,
    {
        if buf[i] >= 128 {
            return Err(PandaError::MalformedResponse);
        }
        bytes.push(buf[i]);
        i = i + 1;
        assert(bytes@ =~= buf@.subrange(0, i as int));
    }
    assert(bytes@ =~= buf@);
    Ok(ascii_to_string(bytes))
}

/// The 128-byte firmware version assembled from its two parts: the first
/// part from offset 0, the second from offset 65, zero elsewhere. Byte 64
/// is never written.
pub open spec fn fw_version_of(lower: Seq<u8>, upper: Seq<u8>) -> Seq<u8> {
    Seq::new(
        128,
        |i: int|
            if i < lower.len() {
                lower[i]
            } else if 65 <= i < 65 + upper.len() {
                upper[i - 65]
            } else {
                0u8
            },
    )
}

/// `r` is the outcome of assembling the firmware version from its parts:
/// parts that fit give `fw_version_of`, longer ones are malformed.
pub open spec fn fw_version_assembled_as(
    lower: Seq<u8>,
    upper: Seq<u8>,
    r: Result<[u8; 128], PandaError>,
) -> bool {
    if lower.len() <= 64 && upper.len() <= 63 {
        r is Ok && r->Ok_0@ == fw_version_of(lower, upper)
    } else {
        r == Err::<[u8; 128], PandaError>(PandaError::MalformedResponse)
    }
}

/// Assembles the firmware version from the two control reads. The first
/// read holds at most 64 bytes, the second at most 63.
pub fn assemble_fw_version(lower: &[u8], upper: &[u8]) -> (r: Result<[u8; 128], PandaError>)
    ensures
        fw_version_assembled_as(lower@, upper@, r),
{
    if lower.len() > FW_VERSION_LOWER_SIZE || upper.len() > FW_VERSION_SIZE
        - FW_VERSION_UPPER_OFFSET {
        return Err(PandaError::MalformedResponse);
    }
    let mut out: [u8; 128] = [0u8; 128];
    let mut i: usize = 0;
    while i < 128
        invariant
            i <= 128,
            lower@.len() <= 64,
            upper@.len() <= 63,
            forall|j: int| 0 <= j < i ==> #[trigger] out@[j] == fw_version_of(lower@, upper@)[j],
        decreases 128 - i,
    {
        let v: u8 = if i < lower.len() {
            lower[i]
        } else if 65 <= i && i < 65 + upper.len() {
            upper[i - 65]
        } else {
            0
        };
        out.set(i, v);
        i = i + 1;
    }
    assert(out@ =~= fw_version_of(lower@, upper@));
    Ok(out)
}

} // verus!
