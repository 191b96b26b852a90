use hostlink::protocol::{Message, MessageKind, MessageParams, NodeId, ProtocolError};

#[test]
fn parse_known_frame() {
    let message = Message::parse("@10RH0031000158*\r").unwrap();
    assert_eq!(message.node(), NodeId::new(10).unwrap());
    assert_eq!(message.kind(), MessageKind::HrAreaRead);
    assert_eq!(message.params(), &MessageParams::from("00310001"));
}

#[test]
fn parse_without_at_symbol() {
    assert_eq!(Message::parse("10TS47*\r"), Err(ProtocolError::MissingAtSymbol));
    assert_eq!(Message::parse(""), Err(ProtocolError::MissingAtSymbol));
}

#[test]
fn parse_without_terminator() {
    assert_eq!(Message::parse("@00TS47"), Err(ProtocolError::MissingTerminator));
    assert_eq!(Message::parse("@00TS47*"), Err(ProtocolError::MissingTerminator));
    assert_eq!(Message::parse("@00TS47\r"), Err(ProtocolError::MissingTerminator));
    assert_eq!(Message::parse("@00TS"), Err(ProtocolError::MissingTerminator));
    assert_eq!(Message::parse("@00TS\r"), Err(ProtocolError::MissingTerminator));
}

#[test]
fn parse_without_node_id() {
    assert_eq!(Message::parse("@"), Err(ProtocolError::MissingNodeId));
    assert_eq!(Message::parse("@1"), Err(ProtocolError::MissingNodeId));
}

#[test]
fn parse_with_unreadable_node_id() {
    assert!(matches!(Message::parse("@x1TS47*\r"), Err(ProtocolError::IntParse(_))));
    assert!(matches!(Message::parse("@1xTS47*\r"), Err(ProtocolError::IntParse(_))));
    assert!(matches!(Message::parse("@-1TS47*\r"), Err(ProtocolError::IntParse(_))));
    assert!(matches!(Message::parse("@ 1TS47*\r"), Err(ProtocolError::IntParse(_))));
    assert!(matches!(Message::parse("@++"), Err(ProtocolError::IntParse(_))));
}

#[test]
fn parse_reads_a_signed_node_id() {
    let message = Message::parse("@+7TS47*\r").unwrap();
    assert_eq!(message.node(), NodeId::new(7).unwrap());
}

#[test]
fn parse_reads_every_two_digit_node_id() {
    let message = Message::parse("@99TS47*\r").unwrap();
    assert_eq!(message.node().value(), 99);
    let message = Message::parse("@08TS47*\r").unwrap();
    assert_eq!(message.node().value(), 8);
    let message = Message::parse("@40TS47*\r").unwrap();
    assert_eq!(message.node().value(), 40);
}

#[test]
fn parse_without_header_code() {
    assert_eq!(Message::parse("@00"), Err(ProtocolError::MissingHeaderCode));
    assert_eq!(Message::parse("@00T"), Err(ProtocolError::MissingHeaderCode));
}

#[test]
fn parse_with_unknown_command() {
    assert_eq!(
        Message::parse("@00ZZ47*\r"),
        Err(ProtocolError::UnknownCommand("ZZ".to_string()))
    );
}

#[test]
fn parse_without_fcs() {
    assert_eq!(Message::parse("@00TS*\r"), Err(ProtocolError::MissingFcs));
    assert_eq!(Message::parse("@00TS4*\r"), Err(ProtocolError::MissingFcs));
}

#[test]
fn parse_does_not_verify_the_fcs() {
    let message = Message::parse("@00TSzz*\r").unwrap();
    assert_eq!(
        message,
        Message::new_with_empty_params(NodeId::new(0).unwrap(), MessageKind::Test)
    );
}

#[test]
fn parse_keeps_the_parameters_verbatim() {
    let message = Message::parse("@00TSa b*c00*\r").unwrap();
    assert_eq!(message.params(), &MessageParams::from(vec!['a', ' ', 'b', '*', 'c']));
}

#[test]
fn round_trip_with_wide_characters() {
    let original = Message::new(
        NodeId::new(42).unwrap(),
        MessageKind::Test,
        MessageParams::from("é*\r!"),
    );
    let serialized = original.clone().serialize().unwrap();
    assert_eq!(Message::parse(&serialized), Ok(original));
}

#[test]
fn round_trip_of_every_node() {
    let mut value: u8 = 0;
    while value <= 99 {
        let original = Message::new(
            NodeId::new(value).unwrap(),
            MessageKind::StatusRead,
            MessageParams::from("00"),
        );
        let serialized = original.clone().serialize().unwrap();
        assert_eq!(Message::parse(&serialized), Ok(original));
        value += 1;
    }
}

#[test]
fn messages_differ_by_any_field() {
    let base = Message::new(NodeId::new(1).unwrap(), MessageKind::Test, MessageParams::from("ab"));
    let node = Message::new(NodeId::new(2).unwrap(), MessageKind::Test, MessageParams::from("ab"));
    let kind = Message::new(NodeId::new(1).unwrap(), MessageKind::ErrorRead, MessageParams::from("ab"));
    let params = Message::new(NodeId::new(1).unwrap(), MessageKind::Test, MessageParams::from("ac"));
    let longer = Message::new(NodeId::new(1).unwrap(), MessageKind::Test, MessageParams::from("abc"));
    assert_eq!(base, base.clone());
    assert_ne!(base, node);
    assert_ne!(base, kind);
    assert_ne!(base, params);
    assert_ne!(base, longer);
}

#[test]
fn parse_frame_with_dots_and_no_at_symbol() {
    assert_eq!(Message::parse("10TS...*\r"), Err(ProtocolError::MissingAtSymbol));
}

#[test]
fn params_can_be_read_and_changed_in_place() {
    let mut params = MessageParams::from("abc");
    assert_eq!(params.len(), 3);
    assert_eq!(params[1], 'b');
    params[1] = 'x';
    assert_eq!(params, MessageParams::from("axc"));
    assert_eq!(MessageParams::default(), MessageParams::new());
    assert_eq!(MessageParams::new().len(), 0);
}
