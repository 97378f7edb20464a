use vstd::prelude::*;

use crate::error::PandaError;

verus! {

/// The vehicle-specific filtering policy the device enforces on outbound
/// CAN traffic.
#[derive(Debug, Clone, Copy, PartialEq, Eq, Structural)]
pub enum SafetyModel {
    Silent,
    HondaNidec,
    Toyota,
    Elm327,
    GM,
    HondaBoschGiraffe,
    Ford,
    Hyundai,
    Chrysler,
    Tesla,
    Subaru,
    Mazda,
    Nissan,
    VolkswagenMQB,
    AllOutput,
    GMAscm,
    NoOutput,
    HondaBosch,
    VolkswagenPq,
    SubaryLegacy,
    HyundaiLegacy,
    HyundaiCommunity,
}

/// The safety model that the device reports with code `c`, if any.
pub open spec fn safety_model_of(c: u8) -> Option<SafetyModel> {
    match c {
        0 => Some(SafetyModel::Silent),
        1 => Some(SafetyModel::HondaNidec),
        2 => Some(SafetyModel::Toyota),
        3 => Some(SafetyModel::Elm327),
        4 => Some(SafetyModel::GM),
        5 => Some(SafetyModel::HondaBoschGiraffe),
        6 => Some(SafetyModel::Ford),
        8 => Some(SafetyModel::Hyundai),
        9 => Some(SafetyModel::Chrysler),
        10 => Some(SafetyModel::Tesla),
        11 => Some(SafetyModel::Subaru),
        13 => Some(SafetyModel::Mazda),
        14 => Some(SafetyModel::Nissan),
        15 => Some(SafetyModel::VolkswagenMQB),
        17 => Some(SafetyModel::AllOutput),
        18 => Some(SafetyModel::GMAscm),
        19 => Some(SafetyModel::NoOutput),
        20 => Some(SafetyModel::HondaBosch),
        21 => Some(SafetyModel::VolkswagenPq),
        22 => Some(SafetyModel::SubaryLegacy),
        23 => Some(SafetyModel::HyundaiLegacy),
        24 => Some(SafetyModel::HyundaiCommunity),
        _ => None,
    }
}

impl SafetyModel {
    /// The device's numeric code for this model.
    pub open spec fn spec_code(self) -> u8 {
        match self {
            SafetyModel::Silent => 0,
            SafetyModel::HondaNidec => 1,
            SafetyModel::Toyota => 2,
            SafetyModel::Elm327 => 3,
            SafetyModel::GM => 4,
            SafetyModel::HondaBoschGiraffe => 5,
            SafetyModel::Ford => 6,
            SafetyModel::Hyundai => 8,
            SafetyModel::Chrysler => 9,
            SafetyModel::Tesla => 10,
            SafetyModel::Subaru => 11,
            SafetyModel::Mazda => 13,
            SafetyModel::Nissan => 14,
            SafetyModel::VolkswagenMQB => 15,
            SafetyModel::AllOutput => 17,
            SafetyModel::GMAscm => 18,
            SafetyModel::NoOutput => 19,
            SafetyModel::HondaBosch => 20,
            SafetyModel::VolkswagenPq => 21,
            SafetyModel::SubaryLegacy => 22,
            SafetyModel::HyundaiLegacy => 23,
            SafetyModel::HyundaiCommunity => 24,
        }
    }

    pub fn code(self) -> (c: u8)
        ensures
            c == self.spec_code(),
    {
        match self {
            SafetyModel::Silent => 0,
            SafetyModel::HondaNidec => 1,
            SafetyModel::Toyota => 2,
            SafetyModel::Elm327 => 3,
            SafetyModel::GM => 4,
            SafetyModel::HondaBoschGiraffe => 5,
            SafetyModel::Ford => 6,
            SafetyModel::Hyundai => 8,
            SafetyModel::Chrysler => 9,
            SafetyModel::Tesla => 10,
            SafetyModel::Subaru => 11,
            SafetyModel::Mazda => 13,
            SafetyModel::Nissan => 14,
            SafetyModel::VolkswagenMQB => 15,
            SafetyModel::AllOutput => 17,
            SafetyModel::GMAscm => 18,
            SafetyModel::NoOutput => 19,
            SafetyModel::HondaBosch => 20,
            SafetyModel::VolkswagenPq => 21,
            SafetyModel::SubaryLegacy => 22,
            SafetyModel::HyundaiLegacy => 23,
            SafetyModel::HyundaiCommunity => 24,
        }
    }

    /// The model with code `c`; a code outside the known set is reported,
    /// never mapped to a default.
    pub fn from_code(c: u8) -> (r: Result<SafetyModel, PandaError>)
        ensures
            r == match safety_model_of(c) {
                Some(m) => Ok::<SafetyModel, PandaError>(m),
                None => Err(PandaError::UnknownEnumValue(c)),
            },
    {
        match c {
            0 => Ok(SafetyModel::Silent),
            1 => Ok(SafetyModel::HondaNidec),
            2 => Ok(SafetyModel::Toyota),
            3 => Ok(SafetyModel::Elm327),
            4 => Ok(SafetyModel::GM),
            5 => Ok(SafetyModel::HondaBoschGiraffe),
            6 => Ok(SafetyModel::Ford),
            8 => Ok(SafetyModel::Hyundai),
            9 => Ok(SafetyModel::Chrysler),
            10 => Ok(SafetyModel::Tesla),
            11 => Ok(SafetyModel::Subaru),
            13 => Ok(SafetyModel::Mazda),
            14 => Ok(SafetyModel::Nissan),
            15 => Ok(SafetyModel::VolkswagenMQB),
            17 => Ok(SafetyModel::AllOutput),
            18 => Ok(SafetyModel::GMAscm),
            19 => Ok(SafetyModel::NoOutput),
            20 => Ok(SafetyModel::HondaBosch),
            21 => Ok(SafetyModel::VolkswagenPq),
            22 => Ok(SafetyModel::SubaryLegacy),
            23 => Ok(SafetyModel::HyundaiLegacy),
            24 => Ok(SafetyModel::HyundaiCommunity),
            _ => Err(PandaError::UnknownEnumValue(c)),
        }
    }
}

/// Each model's code reads back as that model, and a code that reads as a
/// model is that model's code: the table is one-to-one.
pub proof fn lemma_safety_model_codes(m: SafetyModel, c: u8)
    ensures
        safety_model_of(m.spec_code()) == Some(m),
        safety_model_of(c) == Some(m) ==> m.spec_code() == c,
{
}

/// The physical device variant.
#[derive(Debug, Clone, Copy, PartialEq, Eq, Structural)]
pub enum HwType {
    Unknown,
    WhitePanda,
    GreyPanda,
    BlackPanda,
    Pedal,
    Uno,
    Dos,
}

/// The hardware type that the device reports with code `c`, if any.
pub open spec fn hw_type_of(c: u8) -> Option<HwType> {
    match c {
        0 => Some(HwType::Unknown),
        1 => Some(HwType::WhitePanda),
        2 => Some(HwType::GreyPanda),
        3 => Some(HwType::BlackPanda),
        4 => Some(HwType::Pedal),
        5 => Some(HwType::Uno),
        6 => Some(HwType::Dos),
        _ => None,
    }
}

impl HwType {
    /// The hardware type with code `c`; a code outside the known set is
    /// reported, never mapped to a default.
    pub fn from_code(c: u8) -> (r: Result<HwType, PandaError>)
        ensures
            r == match hw_type_of(c) {
                Some(t) => Ok::<HwType, PandaError>(t),
                None => Err(PandaError::UnknownEnumValue(c)),
            },
    {
        match c {
            0 => Ok(HwType::Unknown),
            1 => Ok(HwType::WhitePanda),
            2 => Ok(HwType::GreyPanda),
            3 => Ok(HwType::BlackPanda),
            4 => Ok(HwType::Pedal),
            5 => Ok(HwType::Uno),
            6 => Ok(HwType::Dos),
            _ => Err(PandaError::UnknownEnumValue(c)),
        }
    }
}

/// The power mode of the device's USB port.
#[derive(Debug, Clone, Copy, PartialEq, Eq, Structural)]
pub enum UsbPowerMode {
    Off,
    Client,
    Cdp,
    Dcp,
}

impl UsbPowerMode {
    /// The device's numeric code for this mode.
    pub open spec fn spec_code(self) -> u8 {
        match self {
            UsbPowerMode::Off => 0,
            UsbPowerMode::Client => 1,
            UsbPowerMode::Cdp => 2,
            UsbPowerMode::Dcp => 3,
        }
    }

    pub fn code(self) -> (c: u8)
        ensures
            c == self.spec_code(),
    {
        match self {
            UsbPowerMode::Off => 0,
            UsbPowerMode::Client => 1,
            UsbPowerMode::Cdp => 2,
            UsbPowerMode::Dcp => 3,
        }
    }
}

/// Independent flags that loosen the device's safety enforcement.
#[derive(Debug, Clone, Copy, PartialEq, Eq, Structural)]
pub struct UnsafeMode {
    pub bits: u8,
}

/// Mask of the flags that `UnsafeMode` knows.
pub const UNSAFE_MODE_ALL: u8 = 0x0b;

impl UnsafeMode {
    /// Keep the controls engaged when the driver presses the gas.
    pub fn disable_disengage_on_gas() -> (r: UnsafeMode)
        ensures
            r.bits == 0x1,
    {
        UnsafeMode { bits: 0x1 }
    }

    /// Let the car's own emergency braking messages be replaced.
    pub fn disable_stock_aeb() -> (r: UnsafeMode)
        ensures
            r.bits == 0x2,
    {
        UnsafeMode { bits: 0x2 }
    }

    /// Lift the longitudinal control limits to their maximum.
    pub fn raise_longitudinal_limits_to_max() -> (r: UnsafeMode)
        ensures
            r.bits == 0x8,
    {
        UnsafeMode { bits: 0x8 }
    }

    /// The raw bit mask.
    pub fn bits(self) -> (b: u8)
        ensures
            b == self.bits,
    {
        self.bits
    }

    /// No flag set.
    pub fn empty() -> (r: UnsafeMode)
        ensures
            r.bits == 0,
    {
        UnsafeMode { bits: 0 }
    }

    /// Every known flag set.
    pub fn all() -> (r: UnsafeMode)
        ensures
            r.bits == UNSAFE_MODE_ALL,
    {
        UnsafeMode { bits: UNSAFE_MODE_ALL }
    }

    /// The flags of `bits`, or `None` where it sets a bit that no flag owns.
    pub fn from_bits(bits: u8) -> (r: Option<UnsafeMode>)
        ensures
            bits & !UNSAFE_MODE_ALL == 0 ==> r == Some(UnsafeMode { bits }),
            bits & !UNSAFE_MODE_ALL != 0 ==> r is None,
    {
        if bits & !UNSAFE_MODE_ALL == 0 {
            Some(UnsafeMode { bits })
        } else {
            None
        }
    }

    /// The flags of both.
    pub fn union(self, other: UnsafeMode) -> (r: UnsafeMode)
        ensures
            r.bits == self.bits | other.bits,
    {
        UnsafeMode { bits: self.bits | other.bits }
    }

    /// Every flag of `other` is set in `self`.
    pub fn contains(self, other: UnsafeMode) -> (r: bool)
        ensures
            r == (self.bits & other.bits == other.bits),
    {
        self.bits & other.bits == other.bits
    }
}

impl core::ops::BitOr for UnsafeMode {
    type Output = UnsafeMode;

    fn bitor(self, other: UnsafeMode) -> (r: UnsafeMode)
        ensures
            r.bits == self.bits | other.bits,
    {
        self.union(other)
    }
}

impl vstd::std_specs::ops::BitOrSpecImpl for UnsafeMode {
    open spec fn obeys_bitor_spec() -> bool {
        true
    }

    open spec fn bitor_req(self, other: UnsafeMode) -> bool {
        true
    }

    open spec fn bitor_spec(self, other: UnsafeMode) -> UnsafeMode {
        UnsafeMode { bits: self.bits | other.bits }
    }
}

} // verus!
