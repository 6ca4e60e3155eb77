//! Host-side flashing of BL602-family microcontrollers over a UART link.
//!
//! The crate holds the parts of a flashing session that can be computed
//! without touching a serial port: the framing of commands and responses,
//! the two command vocabularies (boot ROM and flash loader stub), the
//! session logic as a machine that is driven by transport events, the
//! way from a firmware image to flash segments, and the bit-exact
//! construction of boot headers and partition tables.

pub mod bootrom;
pub mod bytes;
pub mod chip;
pub mod connection;
pub mod digest;
pub mod eflash_loader;
pub mod elf;
pub mod endian;
pub mod error;
pub mod flasher;
pub mod fs;
pub mod image;
pub mod opt;
pub mod order;
pub mod protocol;
pub mod transport;

pub use error::{Error, RomError};
pub use flasher::Flasher;
pub use opt::Boot2Opt;
