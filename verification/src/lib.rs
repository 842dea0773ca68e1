//! Driver logic for the MICS-VZ-89TE air-quality sensor.
//!
//! The sensor answers fixed-length command frames over a two-wire serial
//! bus: a 6-byte command goes out, and after a settling delay a 7-byte
//! response comes back, protected by a single checksum byte. This crate
//! holds the frame construction, checksum validation and measurement
//! decoding, verified; the bus itself is reached through the [`bus`]
//! traits, which an adapter around a concrete transport implements.

pub mod bus;
pub mod checksum;
pub mod decode;
pub mod driver;
pub mod error;
pub mod frame;

pub use bus::Delay;
pub use bus::I2cBus;
pub use bus::NoopDelay;
pub use bus::ScriptedBus;
pub use checksum::gen_checksum;
pub use checksum::spec_checksum;
pub use checksum::sum_bytes;
pub use decode::Measurements;
pub use decode::RevisionDate;
pub use driver::MicsVz89Te;
pub use error::PacketParseError;
