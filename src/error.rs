use vstd::prelude::*;

verus! {

/// Every failure the protocol layer reports.
#[derive(Debug, Clone, Copy, PartialEq, Eq, Structural)]
pub enum PandaError {
    /// The USB transfer itself failed (disconnect, stall, timeout).
    TransportError,
    /// A response had the wrong byte count for its record, or a bulk
    /// buffer was not a whole number of frames.
    MalformedResponse,
    /// A decoded enumeration field holds a code outside the known set.
    UnknownEnumValue(u8),
    /// The device speaks an older packet layout than this library.
    DeviceOutdated { device: u8, supported: u8 },
    /// The device speaks a newer packet layout than this library.
    LibraryOutdated { device: u8, supported: u8 },
    /// A CAN frame with a length above 8, or an address that cannot be framed.
    InvalidFrame,
}

} // verus!
