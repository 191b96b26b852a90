//! The operating status that a controller reports.

use crate::protocol::message::{reported_fault, Message};
use std::convert::TryFrom;
use std::ops::Deref;
use vstd::prelude::*;
use vstd::std_specs::convert::TryFromSpecImpl;

verus! {

/// An operation mode.
#[derive(Debug, Clone, Copy, PartialEq, Eq, PartialOrd, Ord, Hash, Structural)]
pub enum StatusMode {
    Program,
    Run,
    Monitor,
}

/// Memory status.
#[derive(Debug, Clone, Copy, PartialEq, Eq, PartialOrd, Ord, Hash, Structural)]
pub struct StatusMemory {
    /// Size of program memory in bytes (if available).
    pub size: Option<u16>,
    /// Whether the program memory is write protected.
    pub write_protection: bool,
}

/// Represents the status of a PLC device.
#[derive(Debug, Clone, Copy, PartialEq, Eq, PartialOrd, Ord, Hash, Structural)]
pub struct Status {
    /// FALS *(Failure Alarm And Reset)* generated
    pub fals: bool,
    /// Fatal error generated
    pub error: bool,
    /// Operation mode
    pub mode: StatusMode,
    /// Memory status
    pub memory: StatusMemory,
}

/// An error that can occur while trying to parse `Status`.
#[derive(Debug, Clone, PartialEq, Eq, Structural)]
pub enum StatusParseError {
    /// Missing mode bytes
    MissingMode,
    /// Missing memory status bytes
    MissingMemory,
    /// Message contains an error
    UnparsableMessage,
    /// Mode bits could not be mapped to any known operation mode
    UnknownMode(bool, bool),
    /// Memory size bits could not be mapped to any known memory size.
    UnknownMemorySize(bool, bool, bool),
}

/// Whether any bit of `mask` is set in `byte`.
pub open spec fn has_bit(byte: u8, mask: u8) -> bool {
    byte & mask > 0
}

/// The byte that the controller spreads over two characters of a response:
/// the high four bits of the first character's byte, and the low four bits of
/// the second's.
pub open spec fn merged(first: char, second: char) -> u8 {
    (first as u8 & 0b1111_0000) | (second as u8 & 0b0000_1111)
}

/// Puts together the byte that two characters of a response stand for.
pub fn merge(first: char, second: char) -> (byte: u8)
    ensures
        byte == merged(first, second),
{
    (first as u8 & 0b1111_0000) | (second as u8 & 0b0000_1111)
}

/// The status that the payload of a status response holds. After the two
/// characters of response code come two for the mode byte and two for the
/// memory byte. A payload that reports a fault is not read any further.
pub open spec fn decode_status(params: Seq<char>) -> Result<Status, StatusParseError> {
    if reported_fault(params) is Some {
        Err(StatusParseError::UnparsableMessage)
    } else if params.len() < 4 {
        Err(StatusParseError::MissingMode)
    } else {
        let mode_byte = merged(params[2], params[3]);
        match StatusMode::decode(mode_byte) {
            Err(e) => Err(e),
            Ok(mode) => if params.len() < 6 {
                Err(StatusParseError::MissingMemory)
            } else {
                match StatusMemory::decode(merged(params[4], params[5])) {
                    Err(e) => Err(e),
                    Ok(memory) => Ok(
                        Status {
                            fals: has_bit(mode_byte, 0b1000_0000),
                            error: has_bit(mode_byte, 0b0001_0000),
                            mode,
                            memory,
                        },
                    ),
                }
            },
        }
    }
}

/// The law that a response which reports a fault never decodes as a status,
/// whatever else its payload holds.
pub proof fn lemma_fault_is_unparsable(params: Seq<char>)
    requires
        reported_fault(params) is Some,
    ensures
        decode_status(params) == Err::<Status, StatusParseError>(
            StatusParseError::UnparsableMessage,
        ),
{
}

impl TryFromSpecImpl<Message> for Status {
    open spec fn obeys_try_from_spec() -> bool {
        true
    }

    open spec fn try_from_spec(v: Message) -> Result<Self, StatusParseError> {
        decode_status(v@.params)
    }
}

impl TryFrom<Message> for Status {
    type Error = StatusParseError;

    /// Decodes the response to a status read.
    fn try_from(value: Message) -> (r: Result<Self, StatusParseError>)
        ensures
            r == decode_status(value@.params),
    {
        if value.check_device_error().is_some() {
            return Err(StatusParseError::UnparsableMessage);
        }
        // skip response code

        let params: &[char] = value.params().deref();
        if params.len() < 4 {
            return Err(StatusParseError::MissingMode);
        }
        let mode_byte = merge(params[2], params[3]);

        let fals = (mode_byte & 0b1000_0000) > 0;
        let error = (mode_byte & 0b0001_0000) > 0;
        let mode = match StatusMode::parse(mode_byte) {
            Ok(mode) => mode,
            Err(e) => {
                return Err(e);
            },
        };

        if params.len() < 6 {
            return Err(StatusParseError::MissingMemory);
        }
        let memory = match StatusMemory::parse(merge(params[4], params[5])) {
            Ok(memory) => memory,
            Err(e) => {
                return Err(e);
            },
        };

        Ok(Self { fals, error, mode, memory })
    }
}

impl StatusMode {
    /// The name of the mode.
    pub open spec fn name(self) -> Seq<char> {
        match self {
            Self::Program => "Program"@,
            Self::Run => "Run"@,
            Self::Monitor => "Monitor"@,
        }
    }

    /// The name of the mode.
    pub fn to_string(&self) -> (s: String)
        ensures
            s@ == self.name(),
    {
        let name = match self {
            Self::Program => "Program",
            Self::Run => "Run",
            Self::Monitor => "Monitor",
        };
        name.to_owned()
    }

    /// The operation mode that the two lowest bits of a mode byte stand for.
    pub open spec fn decode(byte: u8) -> Result<StatusMode, StatusParseError> {
        let first = has_bit(byte, 0b0000_0010);
        let second = has_bit(byte, 0b0000_0001);
        if !first && !second {
            Ok(StatusMode::Program)
        } else if first && !second {
            Ok(StatusMode::Run)
        } else if first && second {
            Ok(StatusMode::Monitor)
        } else {
            Err(StatusParseError::UnknownMode(first, second))
        }
    }

    /// Parse the operation mode from a mode byte of a status response.
    pub fn parse(byte: u8) -> (r: Result<Self, StatusParseError>)
        ensures
            r == Self::decode(byte),
    {
        let first = (byte & 0b0000_0010) > 0;
        let second = (byte & 0b0000_0001) > 0;

        match (first, second) {
            (false, false) => Ok(Self::Program),
            (true, false) => Ok(Self::Run),
            (true, true) => Ok(Self::Monitor),
            _ => Err(StatusParseError::UnknownMode(first, second)),
        }
    }
}

impl StatusMemory {
    /// The memory status that a memory byte stands for: three bits select
    /// the size of the program area, and a cleared fourth one means that
    /// the memory is write protected.
    pub open spec fn decode(byte: u8) -> Result<StatusMemory, StatusParseError> {
        let first = has_bit(byte, 0b0100_0000);
        let second = has_bit(byte, 0b0010_0000);
        let third = has_bit(byte, 0b0001_0000);
        let write_protection = byte & 0b0000_1000 == 0;
        if !first && !second && !third {
            Ok(StatusMemory { size: None, write_protection })
        } else if !first && !second && third {
            Ok(StatusMemory { size: Some(4000u16), write_protection })
        } else if !first && second && !third {
            Ok(StatusMemory { size: Some(8000u16), write_protection })
        } else if first && !second && !third {
            Ok(StatusMemory { size: Some(7200u16), write_protection })
        } else {
            Err(StatusParseError::UnknownMemorySize(first, second, third))
        }
    }

    /// Parse the memory status from a memory byte of a status response.
    pub fn parse(byte: u8) -> (r: Result<Self, StatusParseError>)
        ensures
            r == Self::decode(byte),
    {
        let first = (byte & 0b0100_0000) > 0;
        let second = (byte & 0b0010_0000) > 0;
        let third = (byte & 0b0001_0000) > 0;
        let write_protection = (byte & 0b0000_1000) == 0;

        let program_area: Option<u16> = match (first, second, third) {
            (false, false, false) => None,
            (false, false, true) => Some(4000),
            (false, true, false) => Some(8000),
            (true, false, false) => Some(7200),
            _ => return Err(StatusParseError::UnknownMemorySize(first, second, third)),
        };

        Ok(Self { size: program_area, write_protection })
    }
}

} // verus!
