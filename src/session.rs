use vstd::prelude::*;

use crate::can::{decode_can_frames, encode_can_frames, frames_decoded_as, frames_encoded_as, CanMessage};
use crate::catalogue::{Endpoint, Transfer, TransferKind};
use crate::error::PandaError;
use crate::records::{
    assemble_fw_version, decode_hw_type, decode_serial, decode_u16, fw_version_assembled_as,
    health_result, hw_type_result, rtc_result, serial_decoded_as, u16_result, Health,
    PacketVersions, RtcTime,
};
use crate::types::{HwType, SafetyModel, UnsafeMode, UsbPowerMode};
use crate::version::{check_version, version_check, CAN_VERSION, HEALTH_VERSION};

verus! {

impl PacketVersions {
    /// The device's health layout is the one this library decodes.
    pub fn ensure_health_packet_version(&self) -> (r: Result<(), PandaError>)
        ensures
            r == version_check(self.health_version, HEALTH_VERSION),
    {
        check_version(self.health_version, HEALTH_VERSION)
    }

    /// The device's CAN frame layout is the one this library encodes.
    pub fn ensure_can_packet_version(&self) -> (r: Result<(), PandaError>)
        ensures
            r == version_check(self.can_version, CAN_VERSION),
    {
        check_version(self.can_version, CAN_VERSION)
    }
}

/// The outcome of the version guard on the versions a device declares:
/// the health layout is checked first, then the CAN layout.
pub open spec fn versions_check(v: PacketVersions) -> Result<(), PandaError> {
    if version_check(v.health_version, HEALTH_VERSION) is Err {
        version_check(v.health_version, HEALTH_VERSION)
    } else {
        version_check(v.can_version, CAN_VERSION)
    }
}

/// A session with one device whose packet layouts this library speaks.
///
/// The session performs no I/O itself: it names each transfer, with the
/// session's timeout, and decodes what the transport brought back. A
/// session exists only for a device whose versions passed the guard.
pub struct Panda {
    timeout_ms: u64,
    packet_versions: PacketVersions,
}

impl Panda {
    /// The transfer timeout, in milliseconds.
    pub closed spec fn spec_timeout_ms(&self) -> u64 {
        self.timeout_ms
    }

    /// The versions the device declared when the session began.
    pub closed spec fn spec_packet_versions(&self) -> PacketVersions {
        self.packet_versions
    }

    #[verifier::type_invariant]
    spec fn inv(&self) -> bool {
        &&& self.packet_versions.health_version == HEALTH_VERSION
        &&& self.packet_versions.can_version == CAN_VERSION
    }

    /// The device speaks the layouts this library implements.
    pub open spec fn wf(&self) -> bool {
        &&& self.spec_packet_versions().health_version == HEALTH_VERSION
        &&& self.spec_packet_versions().can_version == CAN_VERSION
    }

    /// Starts a session from the device's packet-version record, read with
    /// `Endpoint::PacketVersions`. A device whose health or CAN layout
    /// differs from this library's is refused.
    pub fn new(versions: &[u8], timeout_ms: u64) -> (r: Result<Panda, PandaError>)
        ensures
            versions@.len() != 2 ==> r == Err::<Panda, PandaError>(PandaError::MalformedResponse),
            versions@.len() == 2 ==> ({
                let v = PacketVersions { health_version: versions@[0], can_version: versions@[1] };
                match versions_check(v) {
                    Ok(_) => r is Ok && r->Ok_0.spec_packet_versions() == v
                        && r->Ok_0.spec_timeout_ms() == timeout_ms,
                    Err(e) => r == Err::<Panda, PandaError>(e),
                }
            }),
            r is Ok ==> r->Ok_0.wf(),
    {
        let packet_versions = match PacketVersions::new(versions) {
            Ok(v) => v,
            Err(e) => {
                return Err(e);
            },
        };
        match packet_versions.ensure_health_packet_version() {
            Ok(_) => {},
            Err(e) => {
                return Err(e);
            },
        }
        match packet_versions.ensure_can_packet_version() {
            Ok(_) => {},
            Err(e) => {
                return Err(e);
            },
        }
        Ok(Panda { timeout_ms, packet_versions })
    }

    pub fn get_packet_versions(&self) -> (r: PacketVersions)
        ensures
            r == self.spec_packet_versions(),
    {
        self.packet_versions
    }

    pub fn timeout_ms(&self) -> (r: u64)
        ensures
            r == self.spec_timeout_ms(),
    {
        self.timeout_ms
    }

    /// The transfer for `endpoint` with a zero value and index: what a read
    /// sends, and what a bulk write is addressed to.
    pub fn transfer(&self, endpoint: Endpoint) -> (r: Transfer)
        ensures
            r == (Transfer {
                kind: endpoint.spec_kind(),
                request: endpoint.spec_code(),
                value: 0,
                index: 0,
                length: endpoint.spec_response_len(),
                timeout_ms: self.spec_timeout_ms(),
            }),
    {
        Transfer {
            kind: endpoint.kind(),
            request: endpoint.code(),
            value: 0,
            index: 0,
            length: endpoint.response_len(),
            timeout_ms: self.timeout_ms,
        }
    }

    fn usb_write(&self, request: Endpoint, value: u16, index: u16) -> (r: Transfer)
        ensures
            r == (Transfer {
                kind: TransferKind::ControlOut,
                request: request.spec_code(),
                value,
                index,
                length: 0,
                timeout_ms: self.spec_timeout_ms(),
            }),
    {
        Transfer {
            kind: TransferKind::ControlOut,
            request: request.code(),
            value,
            index,
            length: 0,
            timeout_ms: self.timeout_ms,
        }
    }

    pub fn set_safety_model(&self, safety_model: SafetyModel, safety_param: u16) -> (r: Transfer)
        ensures
            r == self.control_out(0xdc, safety_model.spec_code() as u16, safety_param),
    {
        self.usb_write(Endpoint::SafetyModel, safety_model.code() as u16, safety_param)
    }

    pub fn set_unsafe_mode(&self, unsafe_mode: UnsafeMode) -> (r: Transfer)
        ensures
            r == self.control_out(0xdf, unsafe_mode.bits as u16, 0),
    {
        self.usb_write(Endpoint::UnsafeMode, unsafe_mode.bits() as u16, 0)
    }

    pub fn set_fan_speed(&self, fan_speed: u16) -> (r: Transfer)
        ensures
            r == self.control_out(0xb1, fan_speed, 0),
    {
        self.usb_write(Endpoint::SetFanSpeed, fan_speed, 0)
    }

    pub fn set_ir_pwr(&self, ir_pwr: u16) -> (r: Transfer)
        ensures
            r == self.control_out(0xb0, ir_pwr, 0),
    {
        self.usb_write(Endpoint::IrPwr, ir_pwr, 0)
    }

    pub fn set_loopback(&self, loopback: bool) -> (r: Transfer)
        ensures
            r == self.control_out(0xe5, if loopback { 1 } else { 0 }, 0),
    {
        self.usb_write(Endpoint::Loopback, if loopback { 1 } else { 0 }, 0)
    }

    pub fn set_power_saving(&self, power_saving: bool) -> (r: Transfer)
        ensures
            r == self.control_out(0xe7, if power_saving { 1 } else { 0 }, 0),
    {
        self.usb_write(Endpoint::PowerSaving, if power_saving { 1 } else { 0 }, 0)
    }

    pub fn set_usb_power_mode(&self, power_mode: UsbPowerMode) -> (r: Transfer)
        ensures
            r == self.control_out(0xe6, power_mode.spec_code() as u16, 0),
    {
        self.usb_write(Endpoint::UsbPowerMode, power_mode.code() as u16, 0)
    }

    pub fn send_heartbeat(&self) -> (r: Transfer)
        ensures
            r == self.control_out(0xf3, 1, 0),
    {
        self.usb_write(Endpoint::Heartbeat, 1, 0)
    }

    pub fn set_heartbeat_disabled(&self) -> (r: Transfer)
        ensures
            r == self.control_out(0xf8, 0, 0),
    {
        self.usb_write(Endpoint::HeartbeatDisabled, 0, 0)
    }

    /// A control-out transfer with this session's timeout.
    pub open spec fn control_out(&self, request: u8, value: u16, index: u16) -> Transfer {
        Transfer {
            kind: TransferKind::ControlOut,
            request,
            value,
            index,
            length: 0,
            timeout_ms: self.spec_timeout_ms(),
        }
    }

    /// Decodes the response to `transfer(Endpoint::Health)`; the session's
    /// guard has already matched the health layout.
    pub fn health(&self, response: &[u8]) -> (r: Result<Health, PandaError>)
        ensures
            self.wf(),
            r == health_result(response@),
    {
        proof {
            use_type_invariant(self);
        }
        Health::decode(response)
    }

    /// Decodes the response to `transfer(Endpoint::GetFanSpeed)`.
    pub fn get_fan_speed(&self, response: &[u8]) -> (r: Result<u16, PandaError>)
        ensures
            r == u16_result(response@),
    {
        decode_u16(response)
    }

    /// Joins the responses to `transfer(Endpoint::FirmwareVersionLower)`
    /// and `transfer(Endpoint::FirmwareVersionHigher)`.
    pub fn get_fw_version(&self, lower: &[u8], upper: &[u8]) -> (r: Result<[u8; 128], PandaError>)
        ensures
            fw_version_assembled_as(lower@, upper@, r),
    {
        assemble_fw_version(lower, upper)
    }

    /// Decodes the response to `transfer(Endpoint::Serial)`.
    pub fn get_serial(&self, response: &[u8]) -> (r: Result<String, PandaError>)
        ensures
            serial_decoded_as(response@, r),
    {
        decode_serial(response)
    }

    /// Decodes the response to `transfer(Endpoint::HwType)`.
    pub fn get_hw_type(&self, response: &[u8]) -> (r: Result<HwType, PandaError>)
        ensures
            r == hw_type_result(response@),
    {
        decode_hw_type(response)
    }

    /// Decodes the response to `transfer(Endpoint::Rtc)`.
    pub fn get_rtc(&self, response: &[u8]) -> (r: Result<RtcTime, PandaError>)
        ensures
            r == rtc_result(response@),
    {
        RtcTime::decode(response)
    }

    /// Decodes the data that `transfer(Endpoint::CanRead)` brought back;
    /// the session's guard has already matched the CAN layout.
    pub fn can_receive(&self, response: &[u8]) -> (r: Result<Vec<CanMessage>, PandaError>)
        ensures
            self.wf(),
            frames_decoded_as(response@, r),
    {
        proof {
            use_type_invariant(self);
        }
        decode_can_frames(response)
    }

    /// The data to send with `transfer(Endpoint::CanWrite)`; the session's
    /// guard has already matched the CAN layout.
    pub fn can_send(&self, can_data: &[CanMessage]) -> (r: Result<Vec<u8>, PandaError>)
        ensures
            self.wf(),
            frames_encoded_as(can_data@, r),
    {
        proof {
            use_type_invariant(self);
        }
        encode_can_frames(can_data)
    }
}

/// With the health layout matched, the guard on the CAN layout refuses a
/// device one version ahead as needing a newer library, one behind as
/// needing newer firmware, and lets an equal one through.
pub proof fn lemma_version_guard(v: PacketVersions)
    requires
        v.health_version == HEALTH_VERSION,
    ensures
        v.can_version > CAN_VERSION ==> versions_check(v) == Err::<(), PandaError>(
            PandaError::LibraryOutdated { device: v.can_version, supported: CAN_VERSION },
        ),
        v.can_version < CAN_VERSION ==> versions_check(v) == Err::<(), PandaError>(
            PandaError::DeviceOutdated { device: v.can_version, supported: CAN_VERSION },
        ),
        v.can_version == CAN_VERSION ==> versions_check(v) == Ok::<(), PandaError>(()),
{
}

} // verus!
