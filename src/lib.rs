//! Host-side protocol layer for a USB-attached CAN interface: the request
//! catalogue, the fixed-layout record decoders, the CAN frame codec and the
//! packet-version guard.

pub mod bytes;
pub mod can;
pub mod catalogue;
pub mod error;
pub mod records;
pub mod session;
pub mod types;
pub mod version;

pub use error::PandaError;
pub use can::CanMessage;
pub use catalogue::{Endpoint, Transfer, TransferKind};
pub use records::{Health, PacketVersions, RtcTime};
pub use session::Panda;
pub use types::{HwType, SafetyModel, UnsafeMode, UsbPowerMode};
