use hostlink::protocol::{fcs::fcs, Command, CommandKind, CommandParams, NodeId};

#[test]
fn serialize_1() {
    let node = NodeId::new(0).unwrap();
    let kind = CommandKind::Test;
    let params = CommandParams::new();
    let command = Command::new(node, kind, params);

    let serialized = command.serialize().unwrap();
    assert_eq!(
        serialized.as_ref(),
        format!("@00TS{}*\r", fcs("@00TS").unwrap().to_string()).as_str()
    );
}

#[test]
fn serialize_gives_the_exact_frame() {
    let command = Command::new(
        NodeId::new(10).unwrap(),
        CommandKind::HrAreaRead,
        CommandParams::from("00310001"),
    );
    assert_eq!(command.serialize().unwrap().as_ref(), "@10RH0031000158*\r");
}

#[test]
fn serialize_empty_test_command() {
    let command = Command::new_with_empty_params(NodeId::new(0).unwrap(), CommandKind::Test);
    assert_eq!(command.serialize().unwrap().as_ref(), "@00TS47*\r");
}

#[test]
fn serialize_after_restamping_the_node() {
    let mut command = Command::new(
        NodeId::new(0).unwrap(),
        CommandKind::HrAreaRead,
        CommandParams::from("00310001"),
    );
    command.set_node_id(NodeId::new(10).unwrap());
    assert_eq!(command.node(), NodeId::new(10).unwrap());
    assert_eq!(command.kind(), CommandKind::HrAreaRead);
    assert_eq!(command.serialize().unwrap().as_ref(), "@10RH0031000158*\r");
}
