//! A shorthand for the most common commands.

use crate::protocol::error::ProtocolError;
use crate::protocol::kind::MessageKind;
use crate::protocol::message::{Message, MessageParams, MessageView, NodeId};
use crate::protocol::text::chars_of;
use vstd::prelude::*;
use vstd::std_specs::cmp::PartialEqSpecImpl;

verus! {

/// Whether `c` is an ASCII letter or digit.
pub open spec fn is_ascii_alphanumeric(c: char) -> bool {
    ('0' <= c <= '9') || ('A' <= c <= 'Z') || ('a' <= c <= 'z')
}

/// Whether `c` is an ASCII punctuation character: a printable ASCII
/// character that is neither a letter, nor a digit, nor the space.
pub open spec fn is_ascii_punctuation(c: char) -> bool {
    ('!' <= c <= '/') || (':' <= c <= '@') || ('[' <= c <= '`') || ('{' <= c <= '~')
}

/// Whether `c` may stand in the data of a test command.
pub open spec fn is_test_char(c: char) -> bool {
    is_ascii_alphanumeric(c) || is_ascii_punctuation(c) || c == ' '
}

/// Whether every character of a text may stand in the data of a test
/// command.
pub open spec fn is_test_data(data: Seq<char>) -> bool {
    forall|i: int| 0 <= i < data.len() ==> is_test_char(#[trigger] data[i])
}

/// Tells whether a character may stand in the data of a test command.
pub fn test_char(c: char) -> (ok: bool)
    ensures
        ok == is_test_char(c),
{
    let alphanumeric = ('0' <= c && c <= '9') || ('A' <= c && c <= 'Z') || ('a' <= c && c <= 'z');
    let punctuation = ('!' <= c && c <= '/') || (':' <= c && c <= '@') || ('[' <= c && c <= '`')
        || ('{' <= c && c <= '~');
    alphanumeric || punctuation || c == ' '
}

/// A simplified representation of a command.
#[derive(Debug, PartialEq, Eq, PartialOrd, Ord, Hash)]
#[non_exhaustive]
pub enum EasyCommand {
    /// Transmits a block of data, which is then repeated by the PLC.
    Test(Box<str>),
    /// Reads the operating status of the PLC.
    StatusRead,
}

/// The mathematical content of an [`EasyCommand`].
pub enum EasyCommandView {
    Test(Seq<char>),
    StatusRead,
}

impl EasyCommandView {
    /// The command's message type.
    pub open spec fn kind(self) -> MessageKind {
        match self {
            EasyCommandView::Test(_) => MessageKind::Test,
            EasyCommandView::StatusRead => MessageKind::StatusRead,
        }
    }

    /// The command as text: the data of a test command, and the name of any
    /// other.
    pub open spec fn text(self) -> Seq<char> {
        match self {
            EasyCommandView::Test(data) => data,
            EasyCommandView::StatusRead => "StatusRead"@,
        }
    }

    /// The command's parameters.
    pub open spec fn params(self) -> Seq<char> {
        match self {
            EasyCommandView::Test(data) => data,
            EasyCommandView::StatusRead => Seq::<char>::empty(),
        }
    }
}

impl View for EasyCommand {
    type V = EasyCommandView;

    open spec fn view(&self) -> EasyCommandView {
        match self {
            EasyCommand::Test(data) => EasyCommandView::Test(data@),
            EasyCommand::StatusRead => EasyCommandView::StatusRead,
        }
    }
}

impl Clone for EasyCommand {
    fn clone(&self) -> (command: Self)
        ensures
            command@ == self@,
    {
        match self {
            Self::Test(data) => {
                let text: &str = data;
                Self::Test(text.to_owned().into_boxed_str())
            },
            Self::StatusRead => Self::StatusRead,
        }
    }
}

impl EasyCommand {
    /// Construct a `Test` command with the given data. The data may hold
    /// ASCII letters, digits, punctuation and spaces, and nothing else.
    pub fn make_test(data: &str) -> (r: Result<Self, ProtocolError>)
        ensures
            match r {
                Ok(command) => is_test_data(data@) && command@ == EasyCommandView::Test(data@),
                Err(e) => !is_test_data(data@) && e == ProtocolError::InvalidTestData,
            },
    {
        let chars = chars_of(data);
        let mut i: usize = 0;
        while i < chars.len()
            invariant
                chars@ == data@,
                i <= chars@.len(),
                forall|j: int| 0 <= j < i ==> is_test_char(#[trigger] chars@[j]),
            decreases chars@.len() - i,
        {
            if !test_char(chars[i]) {
                assert(!is_test_char(data@[i as int]));
                return Err(ProtocolError::InvalidTestData);
            }
            i = i + 1;
        }

        Ok(Self::Test(data.to_owned().into_boxed_str()))
    }

    /// Construct a `StatusRead` command.
    #[must_use]
    pub fn make_status_read() -> (command: Self)
        ensures
            command@ == EasyCommandView::StatusRead,
    {
        Self::StatusRead
    }

    /// Perform conversion into [`Message`](Message).
    #[must_use]
    pub fn into_message(self, node: NodeId) -> (m: Message)
        ensures
            m@ == (MessageView { node: node@, kind: self@.kind(), params: self@.params() }),
    {
        let kind = self.kind();

        match self {
            Self::Test(data) => Message::new(node, kind, MessageParams::from(data)),
            Self::StatusRead => Message::new_with_empty_params(node, kind),
        }
    }

    /// Get the command's message type.
    #[must_use]
    pub fn kind(&self) -> (kind: MessageKind)
        ensures
            kind == self@.kind(),
    {
        match self {
            Self::Test(..) => MessageKind::Test,
            Self::StatusRead => MessageKind::StatusRead,
        }
    }

    /// The command as text: the data of a test command, and the name of any
    /// other.
    pub fn to_string(&self) -> (s: String)
        ensures
            s@ == self@.text(),
    {
        match self {
            Self::Test(data) => {
                let text: &str = data;
                text.to_owned()
            },
            Self::StatusRead => "StatusRead".to_owned(),
        }
    }

    /// Get the command's parameters.
    pub fn params(&self) -> (params: MessageParams)
        ensures
            params@ == self@.params(),
    {
        match self {
            Self::Test(string) => {
                let text: &str = string;
                MessageParams::from(text)
            },
            Self::StatusRead => MessageParams::new(),
        }
    }
}

impl PartialEqSpecImpl<Message> for EasyCommand {
    open spec fn obeys_eq_spec() -> bool {
        true
    }

    open spec fn eq_spec(&self, other: &Message) -> bool {
        self@.kind() == other@.kind && self@.params() == other@.params
    }
}

impl PartialEq<Message> for EasyCommand {
    /// A command equals a message of its kind with its parameters, whatever
    /// node the message names.
    fn eq(&self, other: &Message) -> (r: bool)
        ensures
            r == (self@.kind() == other@.kind && self@.params() == other@.params),
    {
        self.kind() == other.kind() && &self.params() == other.params()
    }
}

} // verus!
