use robus::crc;
use robus::Command;
use robus::Message;
use robus::ParsingError;
use robus::TargetMode;

const BROADCAST_TARGET: u16 = 0x0FFF;

#[test]
fn create_messages() {
    let target: u16 = 42;
    let data = vec![1, 2, 3, 4];

    let _msg = Message::id(target, Command::PublishState, &data);
    let _msg = Message::broadcast(Command::Identify, &data);
}

#[test]
fn create_id_message() {
    let target: u16 = 0x0A7;
    let command = Command::PublishState;
    let data = vec![5, 6, 7];

    let msg = Message::id(target, command, &data);

    assert_eq!(msg.header.target, target);
    assert_eq!(msg.header.target_mode, TargetMode::Id);
    assert_eq!(msg.header.command, command);
    assert_eq!(msg.data, data);
}

#[test]
fn create_broadcast() {
    let command = Command::Identify;
    let data = vec![11, 13];

    let msg = Message::broadcast(command, &data);

    assert_eq!(msg.header.target, BROADCAST_TARGET);
    assert_eq!(msg.header.target_mode, TargetMode::Broadcast);
    assert_eq!(msg.header.command, command);
    assert_eq!(msg.data, data);
}

#[test]
fn create_id_ack_message() {
    let msg = Message::id_ack(9, Command::GetState, &vec![]);

    assert_eq!(msg.header.target, 9);
    assert_eq!(msg.header.target_mode, TargetMode::IdAck);
    assert_eq!(msg.header.source, 0);
    assert_eq!(msg.header.data_size, 0);
    assert_eq!(msg.data, Vec::<u8>::new());
}

#[test]
fn create_type_message() {
    let msg = Message::type_msg(4, Command::GetState, &vec![1]);

    assert_eq!(msg.header.target, 4);
    assert_eq!(msg.header.target_mode, TargetMode::Type);
    assert_eq!(msg.header.data_size, 1);
}

#[test]
fn create_multicast_message() {
    let msg = Message::multicast(77, Command::LedColor, &vec![1, 2, 3]);

    assert_eq!(msg.header.target, 77);
    assert_eq!(msg.header.target_mode, TargetMode::Multicast);
    assert_eq!(msg.header.data_size, 3);
}

#[test]
fn mod_ser_deser() {
    let msg = Message::id(0x2B, Command::PublishState, &vec![42, 0, 255]);

    assert_eq!(msg, Message::from_bytes(&msg.to_bytes(), None).unwrap());
}

#[test]
fn check_crc() {
    let b1 = [48, 0, 32, 0, 33, 1, 0];
    let crc1 = [48, 34];
    assert_eq!(crc(&b1), (crc1[0] as u16) | ((crc1[1] as u16) << 8));

    let b2 = [48, 0, 32, 0, 33, 1, 1];
    let crc2 = [17, 50];
    assert_eq!(crc(&b2), (crc2[0] as u16) | ((crc2[1] as u16) << 8));
}

#[test]
fn crc_trailing_bytes() {
    let header = robus::Header {
        protocol: 0,
        target: 3,
        target_mode: TargetMode::Id,
        source: 2,
        command: Command::PublishState,
        data_size: 1,
    };

    let msg = Message { header, data: vec![0] };
    assert_eq!(msg.to_bytes(), vec![48, 0, 32, 0, 33, 1, 0, 0x30, 0x22]);

    let msg = Message { header: robus::Header { data_size: 1, ..header }, data: vec![1] };
    assert_eq!(msg.to_bytes(), vec![48, 0, 32, 0, 33, 1, 1, 0x11, 0x32]);
}

#[test]
fn crc_mismatch_error() {
    let msg = Message::id(3, Command::PublishState, &vec![8]);
    let mut bytes = msg.to_bytes();
    let last = bytes.len() - 1;
    bytes[last] ^= 0xFF;

    match Message::from_bytes(&bytes, None) {
        Err(ParsingError::InvalidCrc(_, _)) => {}
        other => panic!("expected a crc error, got {:?}", other),
    }
}

#[test]
fn short_frame_errors() {
    assert_eq!(
        Message::from_bytes(&[48, 0, 32], None),
        Err(ParsingError::InvalidHeaderSize(3))
    );

    let msg = Message::id(3, Command::PublishState, &vec![1, 2, 3, 4]);
    let bytes = msg.to_bytes();
    assert_eq!(
        Message::from_bytes(&bytes[..bytes.len() - 3], None),
        Err(ParsingError::InvalidDataSize(4))
    );
}

#[test]
fn trusted_crc_is_compared() {
    let msg = Message::id(3, Command::PublishState, &vec![8]);
    let bytes = msg.to_bytes();
    let prefix_crc = crc(&bytes[..bytes.len() - 2]);

    assert_eq!(
        Message::from_bytes(&bytes, Some(prefix_crc)).unwrap(),
        msg
    );
    assert!(matches!(
        Message::from_bytes(&bytes, Some(prefix_crc ^ 1)),
        Err(ParsingError::InvalidCrc(_, _))
    ));
}

#[test]
fn max_payload_roundtrip() {
    let data: Vec<u8> = (0..=254u8).collect();
    assert_eq!(data.len(), 255);

    let msg = Message::id(0x0FFF, Command::PublishState, &data);
    let bytes = msg.to_bytes();
    assert_eq!(bytes.len(), 6 + 255 + 2);

    let back = Message::from_bytes(&bytes, None).unwrap();
    assert_eq!(back, msg);
    assert_eq!(back.header.data_size, 255);
}

#[test]
fn empty_payload_roundtrip() {
    let msg = Message::id(0, Command::GetState, &vec![]);
    let back = Message::from_bytes(&msg.to_bytes(), None).unwrap();
    assert_eq!(back, msg);
    assert_eq!(back.header.data_size, 0);
}

#[test]
fn source_preserved_on_roundtrip() {
    let mut msg = Message::id(0x123, Command::PublishState, &vec![1]);
    msg.header.source = 0x0FFF;

    let back = Message::from_bytes(&msg.to_bytes(), None).unwrap();
    assert_eq!(back.header.source, 0x0FFF);
    assert_eq!(back, msg);
}

#[test]
fn error_descriptions() {
    assert_eq!(ParsingError::InvalidCrc(1, 2).description(), "invalid crc");
    assert_eq!(
        ParsingError::AliasTooLong(20).description(),
        "alias too long"
    );
}
