//! The faults that a controller reports in the first two characters of a
//! response.

use crate::protocol::ProtocolError;
use std::convert::TryFrom;
use vstd::prelude::*;
use vstd::std_specs::convert::TryFromSpecImpl;

verus! {

/// A response code of the controller. All but `NoError` report a fault.
#[derive(Debug, Clone, Copy, PartialEq, Eq, PartialOrd, Ord, Hash, Structural)]
pub enum DeviceError {
    /// No error
    NoError,
    /// Not executable in RUN mode
    NotExecutableInRunMode,
    /// Not executable in MONITOR mode
    NotExecutableInMonitorMode,
    /// Not executable with PROM mounted
    NotExecutableWithPromMounted,
    /// Address over (data overflow)
    AddressOver,
    /// I/O REGISTER capacity exceeded (no registration made), I/O READ unexecutable
    IoRegisterCapacityExceeded,
    /// Not executable in PROGRAM mode
    NotExecutableInProgramMode,
    /// Parity error
    ParityError,
    /// Framing error
    FramingError,
    /// Overrun
    Overrun,
    /// FCS error
    FCSError,
    /// Format error (parameter length error)
    FormatError,
    /// Entry number data error (parameter error, data code error, data length error)
    EntryNumberData,
    /// Instruction not found
    InstructionNotFound,
    /// Frame length error
    FrameLengthError,
    /// Not executable (due to unexecutable error clear, non-registration of I/O table, etc.)
    NotExecutable,
    /// Aborted due to parity error in transmit data
    BadParity,
    /// Aborted due to framing error in transmit data
    BadFraming,
    /// Aborted due to overrun in transmit data
    TransmitDataOverrun,
    /// Aborted due to format error in transmit data
    Format,
    /// Aborted due to entry number data error in transmit data
    IllegalEntryNumber,
    /// Aborted due to frame length error in transmit data
    IllegalFrameLength,
}

impl DeviceError {
    /// The two characters that stand for this response code.
    pub open spec fn code_chars(self) -> (char, char) {
        match self {
            Self::NoError => ('0', '0'),
            Self::NotExecutableInRunMode => ('0', '1'),
            Self::NotExecutableInMonitorMode => ('0', '2'),
            Self::NotExecutableWithPromMounted => ('0', '3'),
            Self::AddressOver => ('0', '4'),
            Self::IoRegisterCapacityExceeded => ('0', '9'),
            Self::NotExecutableInProgramMode => ('0', 'B'),
            Self::ParityError => ('1', '0'),
            Self::FramingError => ('1', '1'),
            Self::Overrun => ('1', '2'),
            Self::FCSError => ('1', '3'),
            Self::FormatError => ('1', '4'),
            Self::EntryNumberData => ('1', '5'),
            Self::InstructionNotFound => ('1', '6'),
            Self::FrameLengthError => ('1', '8'),
            Self::NotExecutable => ('1', '9'),
            Self::BadParity => ('A', '0'),
            Self::BadFraming => ('A', '1'),
            Self::TransmitDataOverrun => ('A', '2'),
            Self::Format => ('A', '4'),
            Self::IllegalEntryNumber => ('A', '5'),
            Self::IllegalFrameLength => ('A', '8'),
        }
    }

    /// The response code that two characters stand for, or the error that
    /// names the two characters where they stand for none.
    pub open spec fn of_code(first: char, second: char) -> Result<DeviceError, ProtocolError> {
        if first == '0' && second == '0' {
            Ok(DeviceError::NoError)
        } else if first == '0' && second == '1' {
            Ok(DeviceError::NotExecutableInRunMode)
        } else if first == '0' && second == '2' {
            Ok(DeviceError::NotExecutableInMonitorMode)
        } else if first == '0' && second == '3' {
            Ok(DeviceError::NotExecutableWithPromMounted)
        } else if first == '0' && second == '4' {
            Ok(DeviceError::AddressOver)
        } else if first == '0' && second == '9' {
            Ok(DeviceError::IoRegisterCapacityExceeded)
        } else if first == '0' && second == 'B' {
            Ok(DeviceError::NotExecutableInProgramMode)
        } else if first == '1' && second == '0' {
            Ok(DeviceError::ParityError)
        } else if first == '1' && second == '1' {
            Ok(DeviceError::FramingError)
        } else if first == '1' && second == '2' {
            Ok(DeviceError::Overrun)
        } else if first == '1' && second == '3' {
            Ok(DeviceError::FCSError)
        } else if first == '1' && second == '4' {
            Ok(DeviceError::FormatError)
        } else if first == '1' && second == '5' {
            Ok(DeviceError::EntryNumberData)
        } else if first == '1' && second == '6' {
            Ok(DeviceError::InstructionNotFound)
        } else if first == '1' && second == '8' {
            Ok(DeviceError::FrameLengthError)
        } else if first == '1' && second == '9' {
            Ok(DeviceError::NotExecutable)
        } else if first == 'A' && second == '0' {
            Ok(DeviceError::BadParity)
        } else if first == 'A' && second == '1' {
            Ok(DeviceError::BadFraming)
        } else if first == 'A' && second == '2' {
            Ok(DeviceError::TransmitDataOverrun)
        } else if first == 'A' && second == '4' {
            Ok(DeviceError::Format)
        } else if first == 'A' && second == '5' {
            Ok(DeviceError::IllegalEntryNumber)
        } else if first == 'A' && second == '8' {
            Ok(DeviceError::IllegalFrameLength)
        } else {
            Err(ProtocolError::UnknownErrorCode(first, second))
        }
    }

    /// The response code that a text stands for: the text must be exactly two
    /// characters long, and the two must be a known code.
    pub open spec fn of_text(text: Seq<char>) -> Result<DeviceError, ProtocolError> {
        if text.len() != 2 {
            Err(ProtocolError::ErrorCodeBadLength)
        } else {
            Self::of_code(text[0], text[1])
        }
    }

    /// Success for `NoError`, and the fault itself as the failure otherwise.
    pub fn to_result(self) -> (r: Result<(), DeviceError>)
        ensures
            r == (if self == DeviceError::NoError {
                Ok::<(), DeviceError>(())
            } else {
                Err::<(), DeviceError>(self)
            }),
    {
        if matches!(self, Self::NoError) {
            Ok(())
        } else {
            Err(self)
        }
    }

    /// Whether this response code reports no fault.
    pub fn is_ok(self) -> (b: bool)
        ensures
            b == (self == DeviceError::NoError),
    {
        self.to_result().is_ok()
    }

    /// The two characters that stand for this response code.
    pub fn code(self) -> (c: (char, char))
        ensures
            c == self.code_chars(),
    {
        match self {
            Self::NoError => ('0', '0'),
            Self::NotExecutableInRunMode => ('0', '1'),
            Self::NotExecutableInMonitorMode => ('0', '2'),
            Self::NotExecutableWithPromMounted => ('0', '3'),
            Self::AddressOver => ('0', '4'),
            Self::IoRegisterCapacityExceeded => ('0', '9'),
            Self::NotExecutableInProgramMode => ('0', 'B'),
            Self::ParityError => ('1', '0'),
            Self::FramingError => ('1', '1'),
            Self::Overrun => ('1', '2'),
            Self::FCSError => ('1', '3'),
            Self::FormatError => ('1', '4'),
            Self::EntryNumberData => ('1', '5'),
            Self::InstructionNotFound => ('1', '6'),
            Self::FrameLengthError => ('1', '8'),
            Self::NotExecutable => ('1', '9'),
            Self::BadParity => ('A', '0'),
            Self::BadFraming => ('A', '1'),
            Self::TransmitDataOverrun => ('A', '2'),
            Self::Format => ('A', '4'),
            Self::IllegalEntryNumber => ('A', '5'),
            Self::IllegalFrameLength => ('A', '8'),
        }
    }

    /// The law that reading a response code's two characters gives the
    /// response code back, for every response code.
    pub proof fn lemma_code_round_trip(self)
        ensures
            Self::of_code(self.code_chars().0, self.code_chars().1) == Ok::<
                DeviceError,
                ProtocolError,
            >(self),
    {
    }

    /// The law that two characters stand for at most one response code: what
    /// they are read as is written with exactly those two characters.
    pub proof fn lemma_code_unique(first: char, second: char, error: DeviceError)
        requires
            Self::of_code(first, second) == Ok::<DeviceError, ProtocolError>(error),
        ensures
            error.code_chars() == (first, second),
    {
    }
}

impl TryFromSpecImpl<(char, char)> for DeviceError {
    open spec fn obeys_try_from_spec() -> bool {
        true
    }

    open spec fn try_from_spec(v: (char, char)) -> Result<Self, ProtocolError> {
        Self::of_code(v.0, v.1)
    }
}

impl TryFrom<(char, char)> for DeviceError {
    type Error = ProtocolError;

    /// Reads two characters as a response code.
    fn try_from(value: (char, char)) -> (r: Result<Self, ProtocolError>)
        ensures
            r == Self::of_code(value.0, value.1),
    {
        let first = value.0;
        let second = value.1;
        if first == '0' && second == '0' {
            Ok(Self::NoError)
        } else if first == '0' && second == '1' {
            Ok(Self::NotExecutableInRunMode)
        } else if first == '0' && second == '2' {
            Ok(Self::NotExecutableInMonitorMode)
        } else if first == '0' && second == '3' {
            Ok(Self::NotExecutableWithPromMounted)
        } else if first == '0' && second == '4' {
            Ok(Self::AddressOver)
        } else if first == '0' && second == '9' {
            Ok(Self::IoRegisterCapacityExceeded)
        } else if first == '0' && second == 'B' {
            Ok(Self::NotExecutableInProgramMode)
        } else if first == '1' && second == '0' {
            Ok(Self::ParityError)
        } else if first == '1' && second == '1' {
            Ok(Self::FramingError)
        } else if first == '1' && second == '2' {
            Ok(Self::Overrun)
        } else if first == '1' && second == '3' {
            Ok(Self::FCSError)
        } else if first == '1' && second == '4' {
            Ok(Self::FormatError)
        } else if first == '1' && second == '5' {
            Ok(Self::EntryNumberData)
        } else if first == '1' && second == '6' {
            Ok(Self::InstructionNotFound)
        } else if first == '1' && second == '8' {
            Ok(Self::FrameLengthError)
        } else if first == '1' && second == '9' {
            Ok(Self::NotExecutable)
        } else if first == 'A' && second == '0' {
            Ok(Self::BadParity)
        } else if first == 'A' && second == '1' {
            Ok(Self::BadFraming)
        } else if first == 'A' && second == '2' {
            Ok(Self::TransmitDataOverrun)
        } else if first == 'A' && second == '4' {
            Ok(Self::Format)
        } else if first == 'A' && second == '5' {
            Ok(Self::IllegalEntryNumber)
        } else if first == 'A' && second == '8' {
            Ok(Self::IllegalFrameLength)
        } else {
            Err(ProtocolError::UnknownErrorCode(first, second))
        }
    }
}

impl<'a> TryFromSpecImpl<&'a str> for DeviceError {
    open spec fn obeys_try_from_spec() -> bool {
        true
    }

    open spec fn try_from_spec(v: &'a str) -> Result<Self, ProtocolError> {
        Self::of_text(v@)
    }
}

impl<'a> TryFrom<&'a str> for DeviceError {
    type Error = ProtocolError;

    /// Reads a text of exactly two characters as a response code.
    fn try_from(value: &'a str) -> (r: Result<Self, ProtocolError>)
        ensures
            r == Self::of_text(value@),
    {
        if value.unicode_len() != 2 {
            return Err(ProtocolError::ErrorCodeBadLength);
        }
        let first = value.get_char(0);
        let second = value.get_char(1);
        Self::try_from((first, second))
    }
}

} // verus!
