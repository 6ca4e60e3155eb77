//! Error kinds of a flashing session.

use vstd::prelude::*;
use vstd::std_specs::convert::FromSpecImpl;

verus! {

/// Status code that the device sends after `"FL"`.
#[derive(Copy, Clone, Debug, PartialEq, Eq, Structural)]
pub enum RomError {
    /// Code `0x0000`; the device should not send it with a failure.
    Success,
    /// Any other code, kept as the device sent it.
    Other(u16),
}

impl RomError {
    /// The status that a raw code stands for.
    pub open spec fn of_code(raw: u16) -> RomError {
        if raw == 0 {
            RomError::Success
        } else {
            RomError::Other(raw)
        }
    }

    /// The raw code that the device sent.
    pub open spec fn spec_code(self) -> u16 {
        match self {
            RomError::Success => 0,
            RomError::Other(raw) => raw,
        }
    }

    /// The raw code that the device sent.
    pub fn code(&self) -> (raw: u16)
        ensures
            raw == self.spec_code(),
    {
        match self {
            RomError::Success => 0,
            RomError::Other(raw) => *raw,
        }
    }
}

impl From<u16> for RomError {
    fn from(raw: u16) -> (r: RomError) {
        if raw == 0 {
            RomError::Success
        } else {
            RomError::Other(raw)
        }
    }
}

impl FromSpecImpl<u16> for RomError {
    open spec fn obeys_from_spec() -> bool {
        true
    }

    open spec fn from_spec(raw: u16) -> RomError {
        RomError::of_code(raw)
    }
}

/// Everything that can end an operation of this crate early.
#[derive(Copy, Clone, Debug, PartialEq, Eq, Structural)]
pub enum Error {
    /// The serial port reported a failure.
    Serial,
    /// Reading or writing a file or a buffer failed.
    IO,
    /// Ten handshake attempts went unanswered.
    ConnectionFailed,
    /// A handshake burst went unanswered.
    Timeout,
    /// A response began with neither `"OK"` nor `"FL"`.
    RespError,
    /// A command body is longer than a frame can declare.
    OverSizedPacket,
    /// The firmware is no usable ELF file.
    InvalidElf,
    /// Kept for loading an ELF file into RAM.
    ElfNotRamLoadable,
    /// The chip could not be identified.
    UnrecognizedChip,
    /// The flash chip with this identifier is not supported.
    UnsupportedFlash(u8),
    /// The device answered `"FL"` with this status.
    RomError(RomError),
    /// A value does not fit the binary layout it has to be written in or read from.
    ParseError,
    /// A configuration file is not valid TOML of the expected shape.
    TomlError,
}

} // verus!
