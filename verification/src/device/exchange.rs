//! The decisions around one request and its response. Nothing here touches
//! the line: the caller sends what these functions build and hands back what
//! it has read.

use crate::device::error::DeviceError;
use crate::protocol::message::{frame, reported_fault, response_code};
use crate::protocol::responses::status::{decode_status, Status};
use crate::protocol::{Message, MessageKind, MessageParams, MessageView, NodeId, ProtocolError};
use std::convert::TryFrom;
use vstd::prelude::*;

verus! {

/// Why a response that was read in full is still no answer.
#[derive(Debug, Clone, PartialEq, Eq)]
pub enum ResponseError {
    /// The response does not say what it should.
    Protocol(ProtocolError),
    /// The controller reports a fault.
    Device(DeviceError),
}

/// What the response to a test command tells.
#[derive(Debug, Clone, PartialEq, Eq)]
pub enum EchoVerdict {
    /// The controller sent the command back unchanged.
    Echoed,
    /// The response is no echo, and what it tells instead.
    Failed(ResponseError),
    /// The response is no echo, and yet it reports no fault.
    Unexplained,
}

/// The data that a test command carries.
pub open spec fn test_data() -> Seq<char> {
    seq!['!', 'r', 'u', 's', 't', '!']
}

/// What the response to a test command tells: an echo is the command itself;
/// anything else is judged by the response code it begins with.
pub open spec fn echo_verdict(command: MessageView, response: MessageView) -> EchoVerdict {
    if response == command {
        EchoVerdict::Echoed
    } else {
        match response_code(response.params) {
            Err(e) => EchoVerdict::Failed(ResponseError::Protocol(e)),
            Ok(error) => if error == DeviceError::NoError {
                EchoVerdict::Unexplained
            } else {
                EchoVerdict::Failed(ResponseError::Device(error))
            },
        }
    }
}

/// What a status response holds for the caller: the fault, where it reports
/// one, and else the status or the reason why none could be decoded.
pub open spec fn status_reading(response: MessageView) -> Result<Status, ResponseError> {
    match reported_fault(response.params) {
        Some(error) => Err(ResponseError::Device(error)),
        None => match decode_status(response.params) {
            Ok(status) => Ok(status),
            Err(e) => Err(ResponseError::Protocol(ProtocolError::StatusParse(e))),
        },
    }
}

/// The test command for a node: a fixed block of data that the controller is
/// to send back.
pub fn test_command(node: NodeId) -> (command: Message)
    ensures
        command@ == (MessageView { node: node@, kind: MessageKind::Test, params: test_data() }),
{
    proof {
        reveal_strlit("!rust!");
    }
    let params = MessageParams::from("!rust!");
    assert(params@ =~= test_data());
    Message::new(node, MessageKind::Test, params)
}

/// The command that asks a node for its operating status.
pub fn status_command(node: NodeId) -> (command: Message)
    ensures
        command@ == (MessageView {
            node: node@,
            kind: MessageKind::StatusRead,
            params: Seq::<char>::empty(),
        }),
{
    Message::new_with_empty_params(node, MessageKind::StatusRead)
}

/// The frame of a command once it is stamped with the node that it goes to.
pub fn stamped_frame(command: Message, node: NodeId) -> (r: Result<Box<str>, ProtocolError>)
    ensures
        r is Ok,
        r->Ok_0@ == frame(MessageView { node: node@, ..command@ }),
{
    let mut command = command;
    command.set_node_id(node);
    command.serialize()
}

/// Judges the response to a test command.
pub fn judge_echo(command: &Message, response: Message) -> (verdict: EchoVerdict)
    ensures
        verdict == echo_verdict(command@, response@),
{
    if response == *command {
        return EchoVerdict::Echoed;
    }
    match response.as_device_error() {
        Err(e) => EchoVerdict::Failed(ResponseError::Protocol(e)),
        Ok(error) => match error.to_result() {
            Ok(()) => EchoVerdict::Unexplained,
            Err(error) => EchoVerdict::Failed(ResponseError::Device(error)),
        },
    }
}

/// Hands a response on unless the controller reports a fault in it.
pub fn without_fault(response: Message) -> (r: Result<Message, DeviceError>)
    ensures
        match r {
            Ok(m) => reported_fault(response@.params) is None && m@ == response@,
            Err(error) => reported_fault(response@.params) == Some(error),
        },
{
    match response.check_device_error() {
        Some(error) => Err(error),
        None => Ok(response),
    }
}

/// Reads the response to a status command.
pub fn read_status(response: Message) -> (r: Result<Status, ResponseError>)
    ensures
        r == status_reading(response@),
{
    let response = match without_fault(response) {
        Ok(response) => response,
        Err(error) => {
            return Err(ResponseError::Device(error));
        },
    };
    match Status::try_from(response) {
        Ok(status) => Ok(status),
        Err(e) => Err(ResponseError::Protocol(ProtocolError::StatusParse(e))),
    }
}

} // verus!
