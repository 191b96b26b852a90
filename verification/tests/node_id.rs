use hostlink::protocol::{NodeId, ProtocolError};
use std::ops::Deref;

#[test]
fn node_id_1() {
    assert_eq!(NodeId::new(100), Err(ProtocolError::IllegalNodeId(100)));
}

#[test]
fn node_id_2() {
    assert_eq!(NodeId::new(1).unwrap().deref(), &1);
}

#[test]
fn node_id_upper_bound_is_accepted() {
    let node = NodeId::new(99).unwrap();
    assert_eq!(node.value(), 99);
    assert_eq!(node.to_string(), "99");
}

#[test]
fn node_id_zero_renders_as_two_digits() {
    let node = NodeId::new(0).unwrap();
    assert_eq!(node.to_string(), "00");
    assert_eq!(NodeId::new(7).unwrap().to_string(), "07");
}

#[test]
fn node_id_largest_byte_is_refused() {
    assert_eq!(NodeId::new(255), Err(ProtocolError::IllegalNodeId(255)));
}

#[test]
fn node_id_default_is_zero() {
    assert_eq!(NodeId::default(), NodeId::new(0).unwrap());
    assert_eq!(NodeId::new_unchecked(42).value(), 42);
}
