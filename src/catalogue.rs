use vstd::prelude::*;

verus! {

/// How a request travels to or from the device.
#[derive(Debug, Clone, Copy, PartialEq, Eq, Structural)]
pub enum TransferKind {
    ControlIn,
    ControlOut,
    BulkIn,
    BulkOut,
}

/// Every operation the device supports.
#[derive(Debug, Clone, Copy, PartialEq, Eq, Structural)]
pub enum Endpoint {
    Rtc,
    IrPwr,
    SetFanSpeed,
    GetFanSpeed,
    HwType,
    Serial,
    Health,
    FirmwareVersionLower,
    FirmwareVersionHigher,
    SafetyModel,
    PacketVersions,
    UnsafeMode,
    Loopback,
    PowerSaving,
    UsbPowerMode,
    Heartbeat,
    HeartbeatDisabled,
    CanRead,
    CanWrite,
}

/// Size of the buffer a bulk read of CAN frames offers the device.
pub const CAN_READ_SIZE: usize = 0x1000;

impl Endpoint {
    /// The request code of a control transfer, or the endpoint address of
    /// a bulk transfer.
    pub open spec fn spec_code(self) -> u8 {
        match self {
            Endpoint::Rtc => 0xa0,
            Endpoint::IrPwr => 0xb0,
            Endpoint::SetFanSpeed => 0xb1,
            Endpoint::GetFanSpeed => 0xb2,
            Endpoint::HwType => 0xc1,
            Endpoint::Serial => 0xd0,
            Endpoint::Health => 0xd2,
            Endpoint::FirmwareVersionLower => 0xd3,
            Endpoint::FirmwareVersionHigher => 0xd4,
            Endpoint::SafetyModel => 0xdc,
            Endpoint::PacketVersions => 0xdd,
            Endpoint::UnsafeMode => 0xdf,
            Endpoint::Loopback => 0xe5,
            Endpoint::PowerSaving => 0xe7,
            Endpoint::UsbPowerMode => 0xe6,
            Endpoint::Heartbeat => 0xf3,
            Endpoint::HeartbeatDisabled => 0xf8,
            Endpoint::CanRead => 0x81,
            Endpoint::CanWrite => 0x03,
        }
    }

    /// The direction and kind of the transfer.
    pub open spec fn spec_kind(self) -> TransferKind {
        match self {
            Endpoint::Rtc | Endpoint::GetFanSpeed | Endpoint::HwType | Endpoint::Serial
            | Endpoint::Health | Endpoint::FirmwareVersionLower
            | Endpoint::FirmwareVersionHigher | Endpoint::PacketVersions => TransferKind::ControlIn,
            Endpoint::CanRead => TransferKind::BulkIn,
            Endpoint::CanWrite => TransferKind::BulkOut,
            _ => TransferKind::ControlOut,
        }
    }

    /// The byte count a read offers the device; zero for writes, whose
    /// length is that of the data sent.
    pub open spec fn spec_response_len(self) -> usize {
        match self {
            Endpoint::Rtc => 8,
            Endpoint::GetFanSpeed => 2,
            Endpoint::HwType => 1,
            Endpoint::Serial => 16,
            Endpoint::Health => 50,
            Endpoint::FirmwareVersionLower => 64,
            Endpoint::FirmwareVersionHigher => 63,
            Endpoint::PacketVersions => 2,
            Endpoint::CanRead => 0x1000,
            _ => 0,
        }
    }

    pub fn code(self) -> (c: u8)
        ensures
            c == self.spec_code(),
    {
        match self {
            Endpoint::Rtc => 0xa0,
            Endpoint::IrPwr => 0xb0,
            Endpoint::SetFanSpeed => 0xb1,
            Endpoint::GetFanSpeed => 0xb2,
            Endpoint::HwType => 0xc1,
            Endpoint::Serial => 0xd0,
            Endpoint::Health => 0xd2,
            Endpoint::FirmwareVersionLower => 0xd3,
            Endpoint::FirmwareVersionHigher => 0xd4,
            Endpoint::SafetyModel => 0xdc,
            Endpoint::PacketVersions => 0xdd,
            Endpoint::UnsafeMode => 0xdf,
            Endpoint::Loopback => 0xe5,
            Endpoint::PowerSaving => 0xe7,
            Endpoint::UsbPowerMode => 0xe6,
            Endpoint::Heartbeat => 0xf3,
            Endpoint::HeartbeatDisabled => 0xf8,
            Endpoint::CanRead => 0x81,
            Endpoint::CanWrite => 0x03,
        }
    }

    pub fn kind(self) -> (k: TransferKind)
        ensures
            k == self.spec_kind(),
    {
        match self {
            Endpoint::Rtc | Endpoint::GetFanSpeed | Endpoint::HwType | Endpoint::Serial
            | Endpoint::Health | Endpoint::FirmwareVersionLower
            | Endpoint::FirmwareVersionHigher | Endpoint::PacketVersions => TransferKind::ControlIn,
            Endpoint::CanRead => TransferKind::BulkIn,
            Endpoint::CanWrite => TransferKind::BulkOut,
            _ => TransferKind::ControlOut,
        }
    }

    pub fn response_len(self) -> (n: usize)
        ensures
            n == self.spec_response_len(),
    {
        match self {
            Endpoint::Rtc => 8,
            Endpoint::GetFanSpeed => 2,
            Endpoint::HwType => 1,
            Endpoint::Serial => 16,
            Endpoint::Health => 50,
            Endpoint::FirmwareVersionLower => 64,
            Endpoint::FirmwareVersionHigher => 63,
            Endpoint::PacketVersions => 2,
            Endpoint::CanRead => CAN_READ_SIZE,
            _ => 0,
        }
    }
}

/// Distinct operations never share a request code.
pub proof fn lemma_codes_distinct(a: Endpoint, b: Endpoint)
    ensures
        a != b ==> a.spec_code() != b.spec_code(),
{
}

/// One transfer for the transport to perform.
#[derive(Debug, Clone, Copy, PartialEq, Eq, Structural)]
pub struct Transfer {
    pub kind: TransferKind,
    /// Control request code, or bulk endpoint address.
    pub request: u8,
    pub value: u16,
    pub index: u16,
    /// Bytes offered for a read; zero for a write.
    pub length: usize,
    pub timeout_ms: u64,
}

} // verus!
