use hostlink::protocol::responses::status::{
    merge, Status, StatusMemory, StatusMode, StatusParseError,
};
use hostlink::protocol::{Message, MessageKind, MessageParams, NodeId};

fn response(params: Vec<char>) -> Message {
    Message::new(NodeId::new(0).unwrap(), MessageKind::StatusRead, MessageParams::from(params))
}

#[test]
fn status_mode_of_run() {
    let first_byte: u8 = 0b0011_0000;
    let second_byte: u8 = 0b0011_0010;
    let mode_byte = merge(first_byte as char, second_byte as char);
    assert_eq!(mode_byte, 50);
    assert_eq!(StatusMode::parse(mode_byte), Ok(StatusMode::Run));
}

#[test]
fn status_mode_bits() {
    assert_eq!(StatusMode::parse(0b0000_0000), Ok(StatusMode::Program));
    assert_eq!(StatusMode::parse(0b0000_0010), Ok(StatusMode::Run));
    assert_eq!(StatusMode::parse(0b0000_0011), Ok(StatusMode::Monitor));
    assert_eq!(StatusMode::parse(0b0000_0001), Err(StatusParseError::UnknownMode(false, true)));
    assert_eq!(StatusMode::parse(0b1111_1100), Ok(StatusMode::Program));
    assert_eq!(StatusMode::parse(0b1111_1101), Err(StatusParseError::UnknownMode(false, true)));
}

#[test]
fn status_memory_bits() {
    assert_eq!(
        StatusMemory::parse(0b0000_0000),
        Ok(StatusMemory { size: None, write_protection: true })
    );
    assert_eq!(
        StatusMemory::parse(0b0001_1000),
        Ok(StatusMemory { size: Some(4000), write_protection: false })
    );
    assert_eq!(
        StatusMemory::parse(0b0010_0000),
        Ok(StatusMemory { size: Some(8000), write_protection: true })
    );
    assert_eq!(
        StatusMemory::parse(0b0100_1000),
        Ok(StatusMemory { size: Some(7200), write_protection: false })
    );
    assert_eq!(
        StatusMemory::parse(0b0011_0000),
        Err(StatusParseError::UnknownMemorySize(false, true, true))
    );
    assert_eq!(
        StatusMemory::parse(0b0111_0000),
        Err(StatusParseError::UnknownMemorySize(true, true, true))
    );
    assert_eq!(
        StatusMemory::parse(0b0101_0000),
        Err(StatusParseError::UnknownMemorySize(true, false, true))
    );
    assert_eq!(
        StatusMemory::parse(0b0110_0000),
        Err(StatusParseError::UnknownMemorySize(true, true, false))
    );
    assert_eq!(
        StatusMemory::parse(0b1000_0111),
        Ok(StatusMemory { size: None, write_protection: true })
    );
}

#[test]
fn merge_takes_high_bits_of_first_and_low_bits_of_second() {
    assert_eq!(merge('0', '2'), 0x32);
    assert_eq!(merge('A', 'z'), 0x4A);
    assert_eq!(merge('\u{90}', '\u{0F}'), 0x9F);
    // a character beyond one byte is cut down to its lowest byte first
    assert_eq!(merge('\u{1F2}', '\u{304}'), 0xF4);
}

#[test]
fn status_of_a_complete_response() {
    // mode byte 0x32: run; memory byte 0x18: 4000 bytes, not protected
    let status = Status::try_from(response(vec!['0', '0', '0', '2', '\u{10}', '8'])).unwrap();
    assert_eq!(
        status,
        Status {
            fals: false,
            error: true,
            mode: StatusMode::Run,
            memory: StatusMemory { size: Some(4000), write_protection: false },
        }
    );
}

#[test]
fn status_with_fals_flag() {
    // mode byte 0x83: monitor, FALS set, no fatal error; memory byte 0x40
    let status = Status::try_from(response(vec!['0', '0', '\u{80}', '3', '@', '0'])).unwrap();
    assert_eq!(
        status,
        Status {
            fals: true,
            error: false,
            mode: StatusMode::Monitor,
            memory: StatusMemory { size: Some(7200), write_protection: true },
        }
    );
}

#[test]
fn status_of_an_error_response() {
    assert_eq!(
        Status::try_from(response(vec!['1', '3'])),
        Err(StatusParseError::UnparsableMessage)
    );
    assert_eq!(
        Status::try_from(response(vec!['0', '1', '0', '2', '\u{10}', '8'])),
        Err(StatusParseError::UnparsableMessage)
    );
}

#[test]
fn status_with_missing_mode() {
    assert_eq!(Status::try_from(response(vec![])), Err(StatusParseError::MissingMode));
    assert_eq!(Status::try_from(response(vec!['0', '0'])), Err(StatusParseError::MissingMode));
    assert_eq!(
        Status::try_from(response(vec!['0', '0', '0'])),
        Err(StatusParseError::MissingMode)
    );
}

#[test]
fn status_with_missing_memory() {
    assert_eq!(
        Status::try_from(response(vec!['0', '0', '0', '2'])),
        Err(StatusParseError::MissingMemory)
    );
    assert_eq!(
        Status::try_from(response(vec!['0', '0', '0', '2', '0'])),
        Err(StatusParseError::MissingMemory)
    );
}

#[test]
fn status_with_unknown_mode() {
    assert_eq!(
        Status::try_from(response(vec!['0', '0', '0', '1', '0', '0'])),
        Err(StatusParseError::UnknownMode(false, true))
    );
    // the mode is judged before the memory bytes are looked for
    assert_eq!(
        Status::try_from(response(vec!['0', '0', '0', '1'])),
        Err(StatusParseError::UnknownMode(false, true))
    );
}

#[test]
fn status_with_unknown_memory_size() {
    assert_eq!(
        Status::try_from(response(vec!['0', '0', '0', '0', '0', '0'])),
        Err(StatusParseError::UnknownMemorySize(false, true, true))
    );
}

#[test]
fn status_mode_names() {
    assert_eq!(StatusMode::Program.to_string(), "Program");
    assert_eq!(StatusMode::Run.to_string(), "Run");
    assert_eq!(StatusMode::Monitor.to_string(), "Monitor");
}
