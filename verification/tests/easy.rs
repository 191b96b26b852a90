use hostlink::protocol::{
    EasyCommand, Message, MessageKind, MessageParams, NodeId, ProtocolError,
};

#[test]
fn easy_test_equals_the_message() {
    let node = NodeId::new(0).unwrap();
    let test_message = "hello, world!";
    let easy_test = EasyCommand::make_test(test_message).unwrap();
    let params = MessageParams::from(test_message);
    let complex_test = Message::new(node, MessageKind::Test, params);
    assert_eq!(&easy_test, &complex_test);
    assert_eq!(easy_test.into_message(node), complex_test);
}

#[test]
fn easy_status_read_equals_the_message() {
    let node = NodeId::new(0).unwrap();
    let easy_status = EasyCommand::make_status_read();
    let complex_status = Message::new_with_empty_params(node, MessageKind::StatusRead);
    assert_eq!(&easy_status, &complex_status);
    assert_eq!(easy_status.kind(), MessageKind::StatusRead);
    assert_eq!(easy_status.params(), MessageParams::new());
    assert_eq!(easy_status.into_message(node), complex_status);
}

#[test]
fn easy_command_differs_from_other_messages() {
    let node = NodeId::new(3).unwrap();
    let easy_test = EasyCommand::make_test("abc").unwrap();
    assert!(easy_test != Message::new(node, MessageKind::Test, MessageParams::from("abd")));
    assert!(easy_test != Message::new(node, MessageKind::ErrorRead, MessageParams::from("abc")));
    assert!(easy_test == Message::new(node, MessageKind::Test, MessageParams::from("abc")));
}

#[test]
fn easy_test_accepts_printable_ascii() {
    let data = " !\"#$%&'()*+,-./0123456789:;<=>?@ABCXYZ[\\]^_`abcxyz{|}~";
    assert_eq!(EasyCommand::make_test(data), Ok(EasyCommand::Test(data.into())));
    assert_eq!(EasyCommand::make_test(""), Ok(EasyCommand::Test("".into())));
}

#[test]
fn easy_test_refuses_other_characters() {
    assert_eq!(EasyCommand::make_test("a\tb"), Err(ProtocolError::InvalidTestData));
    assert_eq!(EasyCommand::make_test("line\r"), Err(ProtocolError::InvalidTestData));
    assert_eq!(EasyCommand::make_test("caf\u{e9}"), Err(ProtocolError::InvalidTestData));
    assert_eq!(EasyCommand::make_test("\u{7f}"), Err(ProtocolError::InvalidTestData));
    assert_eq!(EasyCommand::make_test("\u{1f}"), Err(ProtocolError::InvalidTestData));
}

#[test]
fn easy_command_clone_is_equal() {
    let command = EasyCommand::make_test("abc 123").unwrap();
    assert_eq!(command.clone(), command);
    assert_eq!(command.kind(), MessageKind::Test);
    assert_eq!(command.params(), MessageParams::from("abc 123"));
    let boxed: Box<str> = "abc 123".into();
    assert_eq!(command.params(), MessageParams::from(boxed));
}

#[test]
fn easy_command_as_text() {
    assert_eq!(EasyCommand::make_test("hello").unwrap().to_string(), "hello");
    assert_eq!(EasyCommand::make_status_read().to_string(), "StatusRead");
}
