use hostlink::device::exchange::{
    judge_echo, read_status, stamped_frame, status_command, test_command, without_fault,
};
use hostlink::device::{DeviceError, EchoVerdict, ResponseError};
use hostlink::protocol::responses::status::{
    Status, StatusMemory, StatusMode, StatusParseError,
};
use hostlink::protocol::{Message, MessageKind, MessageParams, NodeId, ProtocolError};

fn node(value: u8) -> NodeId {
    NodeId::new(value).unwrap()
}

#[test]
fn test_command_carries_the_fixed_data() {
    assert_eq!(
        test_command(node(4)),
        Message::new(node(4), MessageKind::Test, MessageParams::from("!rust!"))
    );
}

#[test]
fn status_command_has_no_parameters() {
    assert_eq!(
        status_command(node(4)),
        Message::new_with_empty_params(node(4), MessageKind::StatusRead)
    );
}

#[test]
fn stamped_frame_names_the_given_node() {
    let command = Message::new(node(0), MessageKind::HrAreaRead, MessageParams::from("00310001"));
    assert_eq!(stamped_frame(command, node(10)).unwrap().as_ref(), "@10RH0031000158*\r");
}

#[test]
fn echo_is_accepted() {
    let command = test_command(node(1));
    let response = Message::parse(&command.clone().serialize().unwrap()).unwrap();
    assert_eq!(judge_echo(&command, response), EchoVerdict::Echoed);
}

#[test]
fn echo_with_a_fault() {
    let command = test_command(node(1));
    let response = Message::new(node(1), MessageKind::Test, MessageParams::from("13"));
    assert_eq!(
        judge_echo(&command, response),
        EchoVerdict::Failed(ResponseError::Device(DeviceError::FCSError))
    );
}

#[test]
fn echo_that_cannot_be_read() {
    let command = test_command(node(1));
    let response = Message::new(node(1), MessageKind::Test, MessageParams::from("!rust?"));
    assert_eq!(
        judge_echo(&command, response),
        EchoVerdict::Failed(ResponseError::Protocol(ProtocolError::UnknownErrorCode('!', 'r')))
    );
    let response = Message::new(node(1), MessageKind::Test, MessageParams::new());
    assert_eq!(
        judge_echo(&command, response),
        EchoVerdict::Failed(ResponseError::Protocol(ProtocolError::ErrorCodeBadLength))
    );
}

#[test]
fn echo_from_another_node_is_no_echo() {
    let command = test_command(node(1));
    let response = Message::new(node(2), MessageKind::Test, MessageParams::from("00"));
    assert_eq!(judge_echo(&command, response), EchoVerdict::Unexplained);
}

#[test]
fn response_without_fault_is_handed_on() {
    let response = Message::new(node(1), MessageKind::StatusRead, MessageParams::from("0002"));
    assert_eq!(without_fault(response.clone()), Ok(response));
    let response = Message::new(node(1), MessageKind::StatusRead, MessageParams::from("A5"));
    assert_eq!(without_fault(response), Err(DeviceError::IllegalEntryNumber));
}

#[test]
fn status_is_read_from_a_response() {
    let response = Message::new(node(1), MessageKind::StatusRead, MessageParams::from("0003 0"));
    assert_eq!(
        read_status(response),
        Ok(Status {
            fals: false,
            error: true,
            mode: StatusMode::Monitor,
            memory: StatusMemory { size: Some(8000), write_protection: true },
        })
    );
}

#[test]
fn status_of_a_faulty_response() {
    let response = Message::new(node(1), MessageKind::StatusRead, MessageParams::from("04"));
    assert_eq!(read_status(response), Err(ResponseError::Device(DeviceError::AddressOver)));
}

#[test]
fn status_of_a_short_response() {
    let response = Message::new(node(1), MessageKind::StatusRead, MessageParams::from("00"));
    assert_eq!(
        read_status(response),
        Err(ResponseError::Protocol(ProtocolError::StatusParse(StatusParseError::MissingMode)))
    );
}
