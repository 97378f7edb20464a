use vstd::prelude::*;

use crate::error::PandaError;

verus! {

/// Health record layout this library decodes.
pub const HEALTH_VERSION: u8 = 3;

/// CAN frame layout this library decodes.
pub const CAN_VERSION: u8 = 1;

/// USB vendor identifier of the device.
pub const VENDOR_ID: u16 = 0xbbaa;

/// USB product identifier of the device.
pub const PRODUCT_ID: u16 = 0xddcc;

/// The outcome of comparing a device's layout version with the one this
/// library implements.
pub open spec fn version_check(device: u8, supported: u8) -> Result<(), PandaError> {
    if device > supported {
        Err(PandaError::LibraryOutdated { device, supported })
    } else if device < supported {
        Err(PandaError::DeviceOutdated { device, supported })
    } else {
        Ok(())
    }
}

/// Compares a device's layout version with the one this library
/// implements: a newer device needs a newer library, an older device a
/// firmware upgrade.
pub fn check_version(device: u8, supported: u8) -> (r: Result<(), PandaError>)
    ensures
        r == version_check(device, supported),
        r is Ok <==> device == supported,
{
    if device > supported {
        Err(PandaError::LibraryOutdated { device, supported })
    } else if device < supported {
        Err(PandaError::DeviceOutdated { device, supported })
    } else {
        Ok(())
    }
}

} // verus!
