//! What can go wrong while building or reading a frame.

use crate::protocol::responses::status::StatusParseError;
use std::num::ParseIntError;
use vstd::prelude::*;

verus! {

/// The standard library's error of a failed integer parse, carried through
/// unopened.
#[verifier::external_type_specification]
#[verifier::external_body]
pub struct ExParseIntError(ParseIntError);

/// The standard library's `Clone` for its integer-parse error. Nothing is
/// claimed of the copy.
pub assume_specification[ <ParseIntError as Clone>::clone ](e: &ParseIntError) -> ParseIntError;

/// Represents a protocol error.
#[derive(Debug, Clone, PartialEq, Eq)]
pub enum ProtocolError {
    /// Invalid Node ID.
    IllegalNodeId(u8),
    /// Missing '@' symbol at start.
    MissingAtSymbol,
    /// Fewer than two characters where the Node ID stands.
    MissingNodeId,
    /// The two Node ID characters are not a decimal number.
    IntParse(ParseIntError),
    /// Missing header code (command code).
    MissingHeaderCode,
    /// Unknown or unsupported command type.
    UnknownCommand(String),
    /// Missing command terminator.
    MissingTerminator,
    /// Missing FCS checksum.
    MissingFcs,
    /// Test command's message block contains invalid characters.
    InvalidTestData,
    /// The two characters are no response code of the controller.
    UnknownErrorCode(char, char),
    /// A response code must be exactly two characters long.
    ErrorCodeBadLength,
    /// A status response could not be decoded.
    StatusParse(StatusParseError),
}

/// The mathematical content of a [`ProtocolError`]: text as a sequence of
/// characters, and a failed integer parse without its inner detail.
pub enum ProtocolFault {
    IllegalNodeId(u8),
    MissingAtSymbol,
    MissingNodeId,
    IntParse,
    MissingHeaderCode,
    UnknownCommand(Seq<char>),
    MissingTerminator,
    MissingFcs,
    InvalidTestData,
    UnknownErrorCode(char, char),
    ErrorCodeBadLength,
    StatusParse(StatusParseError),
}

impl View for ProtocolError {
    type V = ProtocolFault;

    open spec fn view(&self) -> ProtocolFault {
        match *self {
            ProtocolError::IllegalNodeId(v) => ProtocolFault::IllegalNodeId(v),
            ProtocolError::MissingAtSymbol => ProtocolFault::MissingAtSymbol,
            ProtocolError::MissingNodeId => ProtocolFault::MissingNodeId,
            ProtocolError::IntParse(_) => ProtocolFault::IntParse,
            ProtocolError::MissingHeaderCode => ProtocolFault::MissingHeaderCode,
            ProtocolError::UnknownCommand(code) => ProtocolFault::UnknownCommand(code@),
            ProtocolError::MissingTerminator => ProtocolFault::MissingTerminator,
            ProtocolError::MissingFcs => ProtocolFault::MissingFcs,
            ProtocolError::InvalidTestData => ProtocolFault::InvalidTestData,
            ProtocolError::UnknownErrorCode(a, b) => ProtocolFault::UnknownErrorCode(a, b),
            ProtocolError::ErrorCodeBadLength => ProtocolFault::ErrorCodeBadLength,
            ProtocolError::StatusParse(e) => ProtocolFault::StatusParse(e),
        }
    }
}

} // verus!
