//! The kinds of command, and the two-character codes that stand for them in
//! a frame.

use crate::protocol::error::{ProtocolError, ProtocolFault};
use std::str::FromStr;
use vstd::prelude::*;

verus! {

/// A Hostlink command type.
#[derive(Debug, Clone, Copy, PartialEq, Eq, PartialOrd, Ord, Hash, Structural)]
pub enum MessageKind {
    IrSrAreaRead,
    LrAreaRead,
    HrAreaRead,
    PvRead,
    TcStatusRead,
    DmAreaRead,
    ArAreaRead,
    IrSrAreaWrite,
    LrAreaWrite,
    HrAreaWrite,
    PvWrite,
    TcStatusWrite,
    DmAreaWrite,
    ArAreaWrite,
    SvRead1,
    SvRead2,
    SvRead3,
    SvChange1,
    SvChange2,
    SvChange3,
    StatusRead,
    StatusWrite,
    ErrorRead,
    ForcedSet,
    ForcedReset,
    MultipleForcedSetReset,
    ForcedSetResetCancel,
    PcModelRead,
    Test,
    ProgramRead,
    ProgramWrite,
    CompoundCommand,
}

impl MessageKind {
    /// The two characters that stand for this kind in a frame.
    pub open spec fn code_chars(self) -> (char, char) {
        match self {
            Self::IrSrAreaRead => ('R', 'R'),
            Self::LrAreaRead => ('R', 'L'),
            Self::HrAreaRead => ('R', 'H'),
            Self::PvRead => ('R', 'C'),
            Self::TcStatusRead => ('R', 'G'),
            Self::DmAreaRead => ('R', 'D'),
            Self::ArAreaRead => ('R', 'J'),
            Self::IrSrAreaWrite => ('W', 'R'),
            Self::LrAreaWrite => ('W', 'L'),
            Self::HrAreaWrite => ('W', 'H'),
            Self::PvWrite => ('W', 'C'),
            Self::TcStatusWrite => ('W', 'G'),
            Self::DmAreaWrite => ('W', 'D'),
            Self::ArAreaWrite => ('W', 'J'),
            Self::SvRead1 => ('R', '#'),
            Self::SvRead2 => ('R', '$'),
            Self::SvRead3 => ('R', '%'),
            Self::SvChange1 => ('W', '#'),
            Self::SvChange2 => ('W', '$'),
            Self::SvChange3 => ('W', '%'),
            Self::StatusRead => ('M', 'S'),
            Self::StatusWrite => ('S', 'C'),
            Self::ErrorRead => ('M', 'F'),
            Self::ForcedSet => ('K', 'S'),
            Self::ForcedReset => ('K', 'R'),
            Self::MultipleForcedSetReset => ('F', 'K'),
            Self::ForcedSetResetCancel => ('K', 'C'),
            Self::PcModelRead => ('M', 'M'),
            Self::Test => ('T', 'S'),
            Self::ProgramRead => ('R', 'P'),
            Self::ProgramWrite => ('W', 'P'),
            Self::CompoundCommand => ('Q', 'Q'),
        }
    }

    /// The command code as the text that stands in a frame.
    pub open spec fn code_text(self) -> Seq<char> {
        seq![self.code_chars().0, self.code_chars().1]
    }

    /// The kind that two characters of a frame stand for, if any.
    pub open spec fn of_code(first: char, second: char) -> Option<MessageKind> {
        if first == 'R' && second == 'R' {
            Some(MessageKind::IrSrAreaRead)
        } else if first == 'R' && second == 'L' {
            Some(MessageKind::LrAreaRead)
        } else if first == 'R' && second == 'H' {
            Some(MessageKind::HrAreaRead)
        } else if first == 'R' && second == 'C' {
            Some(MessageKind::PvRead)
        } else if first == 'R' && second == 'G' {
            Some(MessageKind::TcStatusRead)
        } else if first == 'R' && second == 'D' {
            Some(MessageKind::DmAreaRead)
        } else if first == 'R' && second == 'J' {
            Some(MessageKind::ArAreaRead)
        } else if first == 'W' && second == 'R' {
            Some(MessageKind::IrSrAreaWrite)
        } else if first == 'W' && second == 'L' {
            Some(MessageKind::LrAreaWrite)
        } else if first == 'W' && second == 'H' {
            Some(MessageKind::HrAreaWrite)
        } else if first == 'W' && second == 'C' {
            Some(MessageKind::PvWrite)
        } else if first == 'W' && second == 'G' {
            Some(MessageKind::TcStatusWrite)
        } else if first == 'W' && second == 'D' {
            Some(MessageKind::DmAreaWrite)
        } else if first == 'W' && second == 'J' {
            Some(MessageKind::ArAreaWrite)
        } else if first == 'R' && second == '#' {
            Some(MessageKind::SvRead1)
        } else if first == 'R' && second == '$' {
            Some(MessageKind::SvRead2)
        } else if first == 'R' && second == '%' {
            Some(MessageKind::SvRead3)
        } else if first == 'W' && second == '#' {
            Some(MessageKind::SvChange1)
        } else if first == 'W' && second == '$' {
            Some(MessageKind::SvChange2)
        } else if first == 'W' && second == '%' {
            Some(MessageKind::SvChange3)
        } else if first == 'M' && second == 'S' {
            Some(MessageKind::StatusRead)
        } else if first == 'S' && second == 'C' {
            Some(MessageKind::StatusWrite)
        } else if first == 'M' && second == 'F' {
            Some(MessageKind::ErrorRead)
        } else if first == 'K' && second == 'S' {
            Some(MessageKind::ForcedSet)
        } else if first == 'K' && second == 'R' {
            Some(MessageKind::ForcedReset)
        } else if first == 'F' && second == 'K' {
            Some(MessageKind::MultipleForcedSetReset)
        } else if first == 'K' && second == 'C' {
            Some(MessageKind::ForcedSetResetCancel)
        } else if first == 'M' && second == 'M' {
            Some(MessageKind::PcModelRead)
        } else if first == 'T' && second == 'S' {
            Some(MessageKind::Test)
        } else if first == 'R' && second == 'P' {
            Some(MessageKind::ProgramRead)
        } else if first == 'W' && second == 'P' {
            Some(MessageKind::ProgramWrite)
        } else if first == 'Q' && second == 'Q' {
            Some(MessageKind::CompoundCommand)
        } else {
            None
        }
    }

    /// Returns the command code.
    #[must_use]
    pub fn code(self) -> (s: &'static str)
        ensures
            s@ == self.code_text(),
    {
        let s = match self {
            Self::IrSrAreaRead => {
                proof {
                    reveal_strlit("RR");
                }
                "RR"
            },
            Self::LrAreaRead => {
                proof {
                    reveal_strlit("RL");
                }
                "RL"
            },
            Self::HrAreaRead => {
                proof {
                    reveal_strlit("RH");
                }
                "RH"
            },
            Self::PvRead => {
                proof {
                    reveal_strlit("RC");
                }
                "RC"
            },
            Self::TcStatusRead => {
                proof {
                    reveal_strlit("RG");
                }
                "RG"
            },
            Self::DmAreaRead => {
                proof {
                    reveal_strlit("RD");
                }
                "RD"
            },
            Self::ArAreaRead => {
                proof {
                    reveal_strlit("RJ");
                }
                "RJ"
            },
            Self::IrSrAreaWrite => {
                proof {
                    reveal_strlit("WR");
                }
                "WR"
            },
            Self::LrAreaWrite => {
                proof {
                    reveal_strlit("WL");
                }
                "WL"
            },
            Self::HrAreaWrite => {
                proof {
                    reveal_strlit("WH");
                }
                "WH"
            },
            Self::PvWrite => {
                proof {
                    reveal_strlit("WC");
                }
                "WC"
            },
            Self::TcStatusWrite => {
                proof {
                    reveal_strlit("WG");
                }
                "WG"
            },
            Self::DmAreaWrite => {
                proof {
                    reveal_strlit("WD");
                }
                "WD"
            },
            Self::ArAreaWrite => {
                proof {
                    reveal_strlit("WJ");
                }
                "WJ"
            },
            Self::SvRead1 => {
                proof {
                    reveal_strlit("R#");
                }
                "R#"
            },
            Self::SvRead2 => {
                proof {
                    reveal_strlit("R$");
                }
                "R$"
            },
            Self::SvRead3 => {
                proof {
                    reveal_strlit("R%");
                }
                "R%"
            },
            Self::SvChange1 => {
                proof {
                    reveal_strlit("W#");
                }
                "W#"
            },
            Self::SvChange2 => {
                proof {
                    reveal_strlit("W$");
                }
                "W$"
            },
            Self::SvChange3 => {
                proof {
                    reveal_strlit("W%");
                }
                "W%"
            },
            Self::StatusRead => {
                proof {
                    reveal_strlit("MS");
                }
                "MS"
            },
            Self::StatusWrite => {
                proof {
                    reveal_strlit("SC");
                }
                "SC"
            },
            Self::ErrorRead => {
                proof {
                    reveal_strlit("MF");
                }
                "MF"
            },
            Self::ForcedSet => {
                proof {
                    reveal_strlit("KS");
                }
                "KS"
            },
            Self::ForcedReset => {
                proof {
                    reveal_strlit("KR");
                }
                "KR"
            },
            Self::MultipleForcedSetReset => {
                proof {
                    reveal_strlit("FK");
                }
                "FK"
            },
            Self::ForcedSetResetCancel => {
                proof {
                    reveal_strlit("KC");
                }
                "KC"
            },
            Self::PcModelRead => {
                proof {
                    reveal_strlit("MM");
                }
                "MM"
            },
            Self::Test => {
                proof {
                    reveal_strlit("TS");
                }
                "TS"
            },
            Self::ProgramRead => {
                proof {
                    reveal_strlit("RP");
                }
                "RP"
            },
            Self::ProgramWrite => {
                proof {
                    reveal_strlit("WP");
                }
                "WP"
            },
            Self::CompoundCommand => {
                proof {
                    reveal_strlit("QQ");
                }
                "QQ"
            },
        };
        assert(s@ =~= self.code_text());
        s
    }

    /// Looks up the kind that a two-character command code stands for. A code
    /// that stands for none is handed back in the error.
    pub fn from_code(first: char, second: char) -> (r: Result<Self, ProtocolError>)
        ensures
            match r {
                Ok(kind) => Self::of_code(first, second) == Some(kind),
                Err(e) => Self::of_code(first, second) is None && e@
                    == ProtocolFault::UnknownCommand(seq![first, second]),
            },
    {
        if first == 'R' && second == 'R' {
            Ok(Self::IrSrAreaRead)
        } else if first == 'R' && second == 'L' {
            Ok(Self::LrAreaRead)
        } else if first == 'R' && second == 'H' {
            Ok(Self::HrAreaRead)
        } else if first == 'R' && second == 'C' {
            Ok(Self::PvRead)
        } else if first == 'R' && second == 'G' {
            Ok(Self::TcStatusRead)
        } else if first == 'R' && second == 'D' {
            Ok(Self::DmAreaRead)
        } else if first == 'R' && second == 'J' {
            Ok(Self::ArAreaRead)
        } else if first == 'W' && second == 'R' {
            Ok(Self::IrSrAreaWrite)
        } else if first == 'W' && second == 'L' {
            Ok(Self::LrAreaWrite)
        } else if first == 'W' && second == 'H' {
            Ok(Self::HrAreaWrite)
        } else if first == 'W' && second == 'C' {
            Ok(Self::PvWrite)
        } else if first == 'W' && second == 'G' {
            Ok(Self::TcStatusWrite)
        } else if first == 'W' && second == 'D' {
            Ok(Self::DmAreaWrite)
        } else if first == 'W' && second == 'J' {
            Ok(Self::ArAreaWrite)
        } else if first == 'R' && second == '#' {
            Ok(Self::SvRead1)
        } else if first == 'R' && second == '$' {
            Ok(Self::SvRead2)
        } else if first == 'R' && second == '%' {
            Ok(Self::SvRead3)
        } else if first == 'W' && second == '#' {
            Ok(Self::SvChange1)
        } else if first == 'W' && second == '$' {
            Ok(Self::SvChange2)
        } else if first == 'W' && second == '%' {
            Ok(Self::SvChange3)
        } else if first == 'M' && second == 'S' {
            Ok(Self::StatusRead)
        } else if first == 'S' && second == 'C' {
            Ok(Self::StatusWrite)
        } else if first == 'M' && second == 'F' {
            Ok(Self::ErrorRead)
        } else if first == 'K' && second == 'S' {
            Ok(Self::ForcedSet)
        } else if first == 'K' && second == 'R' {
            Ok(Self::ForcedReset)
        } else if first == 'F' && second == 'K' {
            Ok(Self::MultipleForcedSetReset)
        } else if first == 'K' && second == 'C' {
            Ok(Self::ForcedSetResetCancel)
        } else if first == 'M' && second == 'M' {
            Ok(Self::PcModelRead)
        } else if first == 'T' && second == 'S' {
            Ok(Self::Test)
        } else if first == 'R' && second == 'P' {
            Ok(Self::ProgramRead)
        } else if first == 'W' && second == 'P' {
            Ok(Self::ProgramWrite)
        } else if first == 'Q' && second == 'Q' {
            Ok(Self::CompoundCommand)
        } else {
            let mut code = String::new();
            code.push(first);
            code.push(second);
            assert(code@ =~= seq![first, second]);
            Err(ProtocolError::UnknownCommand(code))
        }
    }

    /// The name of the command in the controller's manual.
    pub open spec fn name(self) -> Seq<char> {
        match self {
            Self::IrSrAreaRead => "IR/SR AREA READ"@,
            Self::LrAreaRead => "LR AREA READ"@,
            Self::HrAreaRead => "HR AREA READ"@,
            Self::PvRead => "PV READ"@,
            Self::TcStatusRead => "TC STATUS READ"@,
            Self::DmAreaRead => "DM AREA READ"@,
            Self::ArAreaRead => "AR AREA READ"@,
            Self::IrSrAreaWrite => "IR/SR AREA WRITE"@,
            Self::LrAreaWrite => "LR AREA WRITE"@,
            Self::HrAreaWrite => "HR AREA WRITE"@,
            Self::PvWrite => "PV WRITE"@,
            Self::TcStatusWrite => "TC STATUS WRITE"@,
            Self::DmAreaWrite => "DM AREA WRITE"@,
            Self::ArAreaWrite => "AR AREA WRITE"@,
            Self::SvRead1 => "SV READ 1"@,
            Self::SvRead2 => "SV READ 2"@,
            Self::SvRead3 => "SV READ 3"@,
            Self::SvChange1 => "SV CHANGE 1"@,
            Self::SvChange2 => "SV CHANGE 2"@,
            Self::SvChange3 => "SV CHANGE 3"@,
            Self::StatusRead => "STATUS READ"@,
            Self::StatusWrite => "STATUS WRITE"@,
            Self::ErrorRead => "ERROR READ"@,
            Self::ForcedSet => "FORCED SET"@,
            Self::ForcedReset => "FORCED RESET"@,
            Self::MultipleForcedSetReset => "MULTIPLE FORCED SET/RESET"@,
            Self::ForcedSetResetCancel => "FORCED SET/RESET CANCEL"@,
            Self::PcModelRead => "PC MODEL READ"@,
            Self::Test => "TEST"@,
            Self::ProgramRead => "PROGRAM READ"@,
            Self::ProgramWrite => "PROGRAM WRITE"@,
            Self::CompoundCommand => "COMPOUND COMMAND"@,
        }
    }

    /// The name of the command in the controller's manual.
    pub fn to_string(&self) -> (s: String)
        ensures
            s@ == self.name(),
    {
        let name = match self {
            Self::IrSrAreaRead => "IR/SR AREA READ",
            Self::LrAreaRead => "LR AREA READ",
            Self::HrAreaRead => "HR AREA READ",
            Self::PvRead => "PV READ",
            Self::TcStatusRead => "TC STATUS READ",
            Self::DmAreaRead => "DM AREA READ",
            Self::ArAreaRead => "AR AREA READ",
            Self::IrSrAreaWrite => "IR/SR AREA WRITE",
            Self::LrAreaWrite => "LR AREA WRITE",
            Self::HrAreaWrite => "HR AREA WRITE",
            Self::PvWrite => "PV WRITE",
            Self::TcStatusWrite => "TC STATUS WRITE",
            Self::DmAreaWrite => "DM AREA WRITE",
            Self::ArAreaWrite => "AR AREA WRITE",
            Self::SvRead1 => "SV READ 1",
            Self::SvRead2 => "SV READ 2",
            Self::SvRead3 => "SV READ 3",
            Self::SvChange1 => "SV CHANGE 1",
            Self::SvChange2 => "SV CHANGE 2",
            Self::SvChange3 => "SV CHANGE 3",
            Self::StatusRead => "STATUS READ",
            Self::StatusWrite => "STATUS WRITE",
            Self::ErrorRead => "ERROR READ",
            Self::ForcedSet => "FORCED SET",
            Self::ForcedReset => "FORCED RESET",
            Self::MultipleForcedSetReset => "MULTIPLE FORCED SET/RESET",
            Self::ForcedSetResetCancel => "FORCED SET/RESET CANCEL",
            Self::PcModelRead => "PC MODEL READ",
            Self::Test => "TEST",
            Self::ProgramRead => "PROGRAM READ",
            Self::ProgramWrite => "PROGRAM WRITE",
            Self::CompoundCommand => "COMPOUND COMMAND",
        };
        name.to_owned()
    }

    /// Looks up the kind that a text stands for: one of the two-character
    /// command codes. Any other text is handed back in the error.
    pub fn from_str(s: &str) -> (r: Result<Self, ProtocolError>)
        ensures
            match r {
                Ok(kind) => Self::of_text(s@) == Some(kind),
                Err(e) => Self::of_text(s@) is None && e@ == ProtocolFault::UnknownCommand(s@),
            },
    {
        if s.unicode_len() == 2 {
            let first = s.get_char(0);
            let second = s.get_char(1);
            assert(s@ =~= seq![first, second]);
            Self::from_code(first, second)
        } else {
            Err(ProtocolError::UnknownCommand(s.to_owned()))
        }
    }

    /// The kind that a text stands for, if any: the text must be one of the
    /// two-character command codes.
    pub open spec fn of_text(text: Seq<char>) -> Option<MessageKind> {
        if text.len() == 2 {
            Self::of_code(text[0], text[1])
        } else {
            None
        }
    }

    /// The law that reading a kind's command code gives the kind back, for
    /// every kind.
    pub proof fn lemma_code_round_trip(self)
        ensures
            Self::of_code(self.code_chars().0, self.code_chars().1) == Some(self),
    {
    }

    /// The law that a command code stands for at most one kind: what two
    /// characters are read as is written with exactly those two characters.
    pub proof fn lemma_code_unique(first: char, second: char, kind: MessageKind)
        requires
            Self::of_code(first, second) == Some(kind),
        ensures
            kind.code_chars() == (first, second),
    {
    }
}

impl FromStr for MessageKind {
    type Err = ProtocolError;

    fn from_str(s: &str) -> (r: Result<Self, ProtocolError>)
        ensures
            match r {
                Ok(kind) => Self::of_text(s@) == Some(kind),
                Err(e) => Self::of_text(s@) is None && e@ == ProtocolFault::UnknownCommand(s@),
            },
    {
        MessageKind::from_str(s)
    }
}

} // verus!
