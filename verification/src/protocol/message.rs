//! The message model and its framing.

use crate::device::DeviceError;
use crate::protocol::error::{ProtocolError, ProtocolFault};
use crate::protocol::fcs::{checksum, fcs};
use crate::protocol::kind::MessageKind;
use crate::protocol::text::{
    chars_of, dec_char, dec_digit, hex_char, parse_two_digits, two_digit_value,
};
use std::ops::{Deref, DerefMut};
use vstd::prelude::*;
use vstd::std_specs::cmp::PartialEqSpecImpl;
use vstd::std_specs::convert::FromSpecImpl;

verus! {

/// Stores a command's parameters as ASCII values.
#[derive(Debug, Eq, PartialOrd, Ord, Hash)]
pub struct MessageParams(Vec<char>);

impl View for MessageParams {
    type V = Seq<char>;

    closed spec fn view(&self) -> Seq<char> {
        self.0@
    }
}

impl MessageParams {
    /// Creates an empty argument set.
    #[must_use]
    pub fn new() -> (p: Self)
        ensures
            p@ == Seq::<char>::empty(),
    {
        Self(Vec::new())
    }
}

impl Default for MessageParams {
    /// The empty argument set.
    fn default() -> (p: Self)
        ensures
            p@ == Seq::<char>::empty(),
    {
        Self(Vec::new())
    }
}

impl Clone for MessageParams {
    fn clone(&self) -> (p: Self)
        ensures
            p@ == self@,
    {
        let mut chars: Vec<char> = Vec::new();
        let mut i: usize = 0;
        while i < self.0.len()
            invariant
                i <= self.0@.len(),
                chars@ == self.0@.take(i as int),
            decreases self.0@.len() - i,
        {
            chars.push(self.0[i]);
            assert(self.0@.take(i + 1) =~= self.0@.take(i as int).push(self.0@[i as int]));
            i = i + 1;
        }
        assert(self.0@.take(i as int) =~= self.0@);
        Self(chars)
    }
}

impl PartialEqSpecImpl for MessageParams {
    open spec fn obeys_eq_spec() -> bool {
        true
    }

    open spec fn eq_spec(&self, other: &MessageParams) -> bool {
        self@ == other@
    }
}

impl PartialEq for MessageParams {
    /// Two parameter lists are equal when they hold the same characters in
    /// the same order.
    fn eq(&self, other: &MessageParams) -> (r: bool)
        ensures
            r == (self@ == other@),
    {
        if self.0.len() != other.0.len() {
            return false;
        }
        let mut i: usize = 0;
        while i < self.0.len()
            invariant
                self.0@.len() == other.0@.len(),
                i <= self.0@.len(),
                forall|j: int| 0 <= j < i ==> self.0@[j] == other.0@[j],
            decreases self.0@.len() - i,
        {
            if self.0[i] != other.0[i] {
                return false;
            }
            i = i + 1;
        }
        assert(self.0@ =~= other.0@);
        true
    }
}

impl FromSpecImpl<Vec<char>> for MessageParams {
    open spec fn obeys_from_spec() -> bool {
        true
    }

    closed spec fn from_spec(v: Vec<char>) -> MessageParams {
        MessageParams(v)
    }
}

impl From<Vec<char>> for MessageParams {
    fn from(value: Vec<char>) -> (p: Self)
        ensures
            p@ == value@,
    {
        Self(value)
    }
}

impl<'a> FromSpecImpl<&'a str> for MessageParams {
    /// The conversion from a text makes its promise through the view alone.
    open spec fn obeys_from_spec() -> bool {
        false
    }

    open spec fn from_spec(v: &'a str) -> MessageParams {
        choose|p: MessageParams| p@ == v@
    }
}

impl<'a> From<&'a str> for MessageParams {
    fn from(value: &'a str) -> (p: Self)
        ensures
            p@ == value@,
    {
        Self(chars_of(value))
    }
}

impl FromSpecImpl<Box<str>> for MessageParams {
    /// The conversion from a boxed text makes its promise through the view
    /// alone.
    open spec fn obeys_from_spec() -> bool {
        false
    }

    open spec fn from_spec(v: Box<str>) -> MessageParams {
        choose|p: MessageParams| p@ == v@
    }
}

impl From<Box<str>> for MessageParams {
    fn from(value: Box<str>) -> (p: Self)
        ensures
            p@ == value@,
    {
        Self(chars_of(&value))
    }
}

impl Deref for MessageParams {
    type Target = [char];

    fn deref(&self) -> (chars: &[char])
        ensures
            chars@ == self@,
    {
        self.0.as_slice()
    }
}

impl DerefMut for MessageParams {
    /// The characters may be changed in place; their number stays.
    fn deref_mut(&mut self) -> (chars: &mut [char])
        ensures
            chars@ == old(self)@,
            final(chars)@ == final(self)@,
    {
        self.0.as_mut_slice()
    }
}

/// Represents a Node ID - i.e. a number between 0 and 99.
#[derive(Debug, Clone, Copy, PartialEq, Eq, PartialOrd, Ord, Hash, Structural)]
pub struct NodeId(u8);

impl View for NodeId {
    type V = u8;

    closed spec fn view(&self) -> u8 {
        self.0
    }
}

impl NodeId {
    #[verifier::type_invariant]
    spec fn at_most_ninety_nine(self) -> bool {
        self.0 <= 99
    }

    /// Safely constructs a Node ID from the specified value.
    /// If the value is higher than 99, an error will be returned.
    pub fn new(value: u8) -> (r: Result<Self, ProtocolError>)
        ensures
            match r {
                Ok(node) => value <= 99 && node@ == value,
                Err(e) => value > 99 && e == ProtocolError::IllegalNodeId(value),
            },
    {
        if value > 99 {
            return Err(ProtocolError::IllegalNodeId(value));
        }
        Ok(Self(value))
    }

    /// Constructs a Node ID from a value that the caller knows to be at most
    /// 99.
    #[must_use]
    pub fn new_unchecked(value: u8) -> (node: Self)
        requires
            value <= 99,
        ensures
            node@ == value,
    {
        Self(value)
    }

    /// The number of the node, which is at most 99.
    pub fn value(&self) -> (v: u8)
        ensures
            v == self@,
            v <= 99,
    {
        proof {
            use_type_invariant(self);
        }
        self.0
    }

    /// The number as it stands in a frame: two decimal digits, zero padded.
    pub fn to_string(&self) -> (s: String)
        ensures
            s@ == node_digits(self@),
            self@ <= 99,
    {
        proof {
            use_type_invariant(self);
        }
        let mut s = String::new();
        s.push(dec_digit(self.0 / 10));
        s.push(dec_digit(self.0 % 10));
        assert(s@ =~= node_digits(self@));
        s
    }
}

impl Default for NodeId {
    /// Node zero.
    fn default() -> (node: Self)
        ensures
            node@ == 0,
    {
        Self(0)
    }
}

impl Deref for NodeId {
    type Target = u8;

    fn deref(&self) -> (v: &u8)
        ensures
            *v == self@,
    {
        &self.0
    }
}

/// A node number as two decimal digits, zero padded.
pub open spec fn node_digits(node: u8) -> Seq<char>
    recommends
        node <= 99,
{
    seq![dec_char(node / 10), dec_char(node % 10)]
}

/// The mathematical content of a [`Message`].
pub struct MessageView {
    pub node: u8,
    pub kind: MessageKind,
    pub params: Seq<char>,
}

/// A complete Hostlink command.
#[derive(Debug, Eq, PartialOrd, Ord, Hash)]
pub struct Message {
    /// Node ID
    node: NodeId,
    /// Command type
    kind: MessageKind,
    /// Arguments
    params: MessageParams,
}

impl View for Message {
    type V = MessageView;

    closed spec fn view(&self) -> MessageView {
        MessageView { node: self.node@, kind: self.kind, params: self.params@ }
    }
}

impl Clone for Message {
    fn clone(&self) -> (m: Self)
        ensures
            m@ == self@,
    {
        Self { node: self.node, kind: self.kind, params: self.params.clone() }
    }
}

impl PartialEqSpecImpl for Message {
    open spec fn obeys_eq_spec() -> bool {
        true
    }

    open spec fn eq_spec(&self, other: &Message) -> bool {
        self@ == other@
    }
}

impl PartialEq for Message {
    /// Two messages are equal when node, kind and parameters all match.
    fn eq(&self, other: &Message) -> (r: bool)
        ensures
            r == (self@ == other@),
    {
        self.node == other.node && self.kind == other.kind && self.params == other.params
    }
}

/// The part of a message's frame that the checksum covers: the start marker,
/// the node number, the command code and the parameters.
pub open spec fn frame_head(m: MessageView) -> Seq<char> {
    seq!['@'] + node_digits(m.node) + m.kind.code_text() + m.params
}

/// The two checksum characters that follow a frame's head.
pub open spec fn frame_fcs(head: Seq<char>) -> Seq<char> {
    let digits = checksum(head);
    seq![hex_char(digits.0), hex_char(digits.1)]
}

/// The frame of a message: its head, the checksum of the head, and the
/// terminator.
pub open spec fn frame(m: MessageView) -> Seq<char> {
    frame_head(m) + frame_fcs(frame_head(m)) + seq!['*', '\r']
}

/// What reading a text as a frame gives, strictly from left to right: the
/// start marker, two characters of node number, two of command code, then
/// the parameters, which end where the last four characters begin: two
/// checksum characters, whose value is not examined, and the terminator.
/// The first violation decides the error.
pub open spec fn parse_frame(s: Seq<char>) -> Result<MessageView, ProtocolFault> {
    if s.len() < 1 || s[0] != '@' {
        Err(ProtocolFault::MissingAtSymbol)
    } else if s.len() < 3 {
        Err(ProtocolFault::MissingNodeId)
    } else if two_digit_value(s[1], s[2]) is None {
        Err(ProtocolFault::IntParse)
    } else if s.len() < 5 {
        Err(ProtocolFault::MissingHeaderCode)
    } else if MessageKind::of_code(s[3], s[4]) is None {
        Err(ProtocolFault::UnknownCommand(seq![s[3], s[4]]))
    } else if s.len() < 7 || s[s.len() - 2] != '*' || s[s.len() - 1] != '\r' {
        Err(ProtocolFault::MissingTerminator)
    } else if s.len() < 9 {
        Err(ProtocolFault::MissingFcs)
    } else {
        Ok(
            MessageView {
                node: two_digit_value(s[1], s[2])->Some_0,
                kind: MessageKind::of_code(s[3], s[4])->Some_0,
                params: s.subrange(5, s.len() - 4),
            },
        )
    }
}

/// The response code that a payload begins with: its first two characters,
/// read as a response code of the controller. A payload of fewer than two
/// characters holds no code of the right length.
pub open spec fn response_code(params: Seq<char>) -> Result<DeviceError, ProtocolError> {
    if params.len() < 2 {
        Err(ProtocolError::ErrorCodeBadLength)
    } else {
        DeviceError::of_code(params[0], params[1])
    }
}

/// The fault that a payload reports, if it begins with the response code of
/// one.
pub open spec fn reported_fault(params: Seq<char>) -> Option<DeviceError> {
    match response_code(params) {
        Ok(error) => if error == DeviceError::NoError {
            None
        } else {
            Some(error)
        },
        Err(_) => None,
    }
}

/// The law that parsing looks for two checksum characters and not at them:
/// the head of any message with a valid node number, followed by any two
/// characters and the terminator, parses, and gives that very message.
pub proof fn lemma_parse_ignores_checksum(m: MessageView, high: char, low: char)
    requires
        m.node <= 99,
    ensures
        parse_frame(frame_head(m) + seq![high, low, '*', '\r']) == Ok::<
            MessageView,
            ProtocolFault,
        >(m),
{
    let f = frame_head(m) + seq![high, low, '*', '\r'];
    m.kind.lemma_code_round_trip();
    assert(f.len() == 9 + m.params.len());
    assert(f[0] == '@');
    assert(f[1] == dec_char(m.node / 10));
    assert(f[2] == dec_char(m.node % 10));
    assert(two_digit_value(f[1], f[2]) == Some(m.node));
    assert(f[3] == m.kind.code_chars().0);
    assert(f[4] == m.kind.code_chars().1);
    assert(f[f.len() - 2] == '*');
    assert(f[f.len() - 1] == '\r');
    assert(f.subrange(5, f.len() - 4) =~= m.params);
}

/// The law that parsing undoes serializing: the frame of any message with a
/// valid node number parses, and gives that very message.
pub proof fn lemma_parse_serialize_round_trip(m: MessageView)
    requires
        m.node <= 99,
    ensures
        parse_frame(frame(m)) == Ok::<MessageView, ProtocolFault>(m),
{
    let digits = frame_fcs(frame_head(m));
    lemma_parse_ignores_checksum(m, digits[0], digits[1]);
    assert(frame(m) =~= frame_head(m) + seq![digits[0], digits[1], '*', '\r']);
}

/// The law that a frame carries the checksum of all that stands before it:
/// the two characters in front of the terminator are the checksum of the
/// frame's text up to them.
pub proof fn lemma_frame_carries_its_checksum(m: MessageView)
    ensures
        frame(m).len() >= 9,
        frame(m).subrange(frame(m).len() - 4, frame(m).len() - 2) == frame_fcs(
            frame(m).subrange(0, frame(m).len() - 4),
        ),
        frame(m).subrange(frame(m).len() - 2, frame(m).len() as int) == seq!['*', '\r'],
{
    let f = frame(m);
    assert(f.subrange(0, f.len() - 4) =~= frame_head(m));
    assert(f.subrange(f.len() - 4, f.len() - 2) =~= frame_fcs(frame_head(m)));
    assert(f.subrange(f.len() - 2, f.len() as int) =~= seq!['*', '\r']);
}

/// The law that whatever parses carries a valid node number, so that no
/// frame is refused for its node number being out of range.
pub proof fn lemma_parsed_node_is_valid(s: Seq<char>)
    requires
        parse_frame(s) is Ok,
    ensures
        parse_frame(s)->Ok_0.node <= 99,
{
}

/// The law that a text which parses is laid out as a frame: the start
/// marker, two characters of node number, the command code of the kind it
/// gives, the parameters it gives, two further characters, and the
/// terminator.
pub proof fn lemma_parsed_text_shape(s: Seq<char>)
    requires
        parse_frame(s) is Ok,
    ensures
        s.len() >= 9,
        s == seq!['@', s[1], s[2]] + parse_frame(s)->Ok_0.kind.code_text() + parse_frame(
            s,
        )->Ok_0.params + seq![s[s.len() - 4], s[s.len() - 3], '*', '\r'],
{
    let m = parse_frame(s)->Ok_0;
    MessageKind::lemma_code_unique(s[3], s[4], m.kind);
    let rebuilt = seq!['@', s[1], s[2]] + m.kind.code_text() + m.params + seq![
        s[s.len() - 4],
        s[s.len() - 3],
        '*',
        '\r',
    ];
    assert(rebuilt.len() == s.len());
    assert forall|i: int| 0 <= i < s.len() implies rebuilt[i] == s[i] by {
        if 5 <= i < s.len() - 4 {
            assert(m.params[i - 5] == s[i]);
        }
    }
    assert(rebuilt =~= s);
}

impl Message {
    /// Creates a new command from the specified node ID and arguments.
    #[must_use]
    pub fn new(node: NodeId, kind: MessageKind, params: MessageParams) -> (m: Self)
        ensures
            m@ == (MessageView { node: node@, kind, params: params@ }),
    {
        Self { node, kind, params }
    }

    /// Creates a new command with no arguments from the specified node ID.
    #[must_use]
    pub fn new_with_empty_params(node: NodeId, kind: MessageKind) -> (m: Self)
        ensures
            m@ == (MessageView { node: node@, kind, params: Seq::<char>::empty() }),
    {
        Self { node, kind, params: MessageParams::new() }
    }

    /// The node that the message is addressed to or comes from.
    pub fn node(&self) -> (node: NodeId)
        ensures
            node@ == self@.node,
            node@ <= 99,
    {
        proof {
            use_type_invariant(&self.node);
        }
        self.node
    }

    /// The command type.
    pub fn kind(&self) -> (kind: MessageKind)
        ensures
            kind == self@.kind,
    {
        self.kind
    }

    /// The arguments.
    pub fn params(&self) -> (params: &MessageParams)
        ensures
            params@ == self@.params,
    {
        &self.params
    }

    /// Stamps the message with another node ID; kind and arguments stay.
    pub fn set_node_id(&mut self, node: NodeId)
        ensures
            final(self)@ == (MessageView { node: node@, ..old(self)@ }),
    {
        self.node = node;
    }

    /// Reads the response code that the arguments begin with.
    pub fn as_device_error(self) -> (r: Result<DeviceError, ProtocolError>)
        ensures
            r == response_code(self@.params),
    {
        if self.params.0.len() < 2 {
            return Err(ProtocolError::ErrorCodeBadLength);
        }
        DeviceError::try_from((self.params.0[0], self.params.0[1]))
    }

    /// The fault that the controller reports in this response, if it reports
    /// one.
    pub fn check_device_error(&self) -> (r: Option<DeviceError>)
        ensures
            r == reported_fault(self@.params),
    {
        if self.params.0.len() < 2 {
            return None;
        }
        match DeviceError::try_from((self.params.0[0], self.params.0[1])) {
            Ok(error) => if error.is_ok() {
                None
            } else {
                Some(error)
            },
            Err(_) => None,
        }
    }

    /// Reads a frame. The checksum characters must be there, but their value
    /// is not held against the rest of the frame.
    pub fn parse(cmd: &str) -> (r: Result<Self, ProtocolError>)
        ensures
            match r {
                Ok(m) => parse_frame(cmd@) == Ok::<MessageView, ProtocolFault>(m@),
                Err(e) => parse_frame(cmd@) == Err::<MessageView, ProtocolFault>(e@),
            },
    {
        let chars = chars_of(cmd);
        let n: usize = chars.len();

        if n < 1 || chars[0] != '@' {
            return Err(ProtocolError::MissingAtSymbol);
        }
        if n < 3 {
            return Err(ProtocolError::MissingNodeId);
        }
        let node_id: u8 = match parse_two_digits(chars[1], chars[2]) {
            Ok(value) => value,
            Err(e) => {
                return Err(ProtocolError::IntParse(e));
            },
        };
        let node_id = match NodeId::new(node_id) {
            Ok(node) => node,
            Err(e) => {
                return Err(e);
            },
        };

        if n < 5 {
            return Err(ProtocolError::MissingHeaderCode);
        }
        let command_kind = match MessageKind::from_code(chars[3], chars[4]) {
            Ok(kind) => kind,
            Err(e) => {
                return Err(e);
            },
        };

        if n < 7 || chars[n - 1] != '\r' || chars[n - 2] != '*' {
            return Err(ProtocolError::MissingTerminator);
        }
        // we won't store the FCS, but only check if it's there
        if n < 9 {
            return Err(ProtocolError::MissingFcs);
        }
        let mut params: Vec<char> = Vec::new();
        let mut i: usize = 5;
        while i < n - 4
            invariant
                9 <= n == chars@.len(),
                5 <= i <= n - 4,
                params@ == chars@.subrange(5, i as int),
            decreases n - i,
        {
            params.push(chars[i]);
            assert(chars@.subrange(5, i + 1) =~= chars@.subrange(5, i as int).push(
                chars@[i as int],
            ));
            i = i + 1;
        }

        Ok(Self::new(node_id, command_kind, MessageParams(params)))
    }

    /// Serializes the command into a string that can be sent to a PLC.
    pub fn serialize(self) -> (r: Result<Box<str>, ProtocolError>)
        ensures
            r is Ok,
            r->Ok_0@ == frame(self@),
            self@.node <= 99,
    {
        proof {
            use_type_invariant(&self.node);
        }
        let mut buffer = String::new();

        // begin
        buffer.push('@');

        // node number
        let node = self.node.to_string();
        buffer.append(node.as_str());

        // header code
        buffer.append(self.kind.code());

        // params
        let mut i: usize = 0;
        while i < self.params.0.len()
            invariant
                i <= self.params@.len(),
                buffer@ == seq!['@'] + node_digits(self.node@) + self.kind.code_text()
                    + self.params@.take(i as int),
            decreases self.params@.len() - i,
        {
            buffer.push(self.params.0[i]);
            assert(self.params@.take(i + 1) =~= self.params@.take(i as int).push(
                self.params@[i as int],
            ));
            i = i + 1;
        }
        assert(self.params@.take(i as int) =~= self.params@);
        assert(buffer@ == frame_head(self@));

        // FCS checksum
        let digits = match fcs(buffer.as_str()) {
            Ok(digits) => digits,
            Err(e) => {
                return Err(e);
            },
        };
        let digits = digits.to_string();
        buffer.append(digits.as_str());

        // terminator
        buffer.push('*');
        buffer.push('\r');
        assert(buffer@ =~= frame(self@));

        Ok(buffer.into_boxed_str())
    }
}

} // verus!
