use wheel_motion::packet::{calculate_crc, crc_of_range, MessageId, PacketDecoder, PacketEncoder};

#[test]
fn crc_of_empty_stream_is_initial_value() {
    assert_eq!(calculate_crc(&[]), 0xFF);
}

#[test]
fn crc_check_value() {
    assert_eq!(calculate_crc(b"123456789"), 0xFB);
    assert_eq!(calculate_crc(&[0x10]), 0x83);
}

#[test]
fn crc_of_a_range() {
    let s = b"xx123456789yy";
    assert_eq!(crc_of_range(s, 2, 11), 0xFB);
    assert_eq!(crc_of_range(s, 4, 4), 0xFF);
}

#[test]
fn message_ids_round_trip() {
    assert_eq!(MessageId::from_u8(0x10), MessageId::CommandRx);
    assert_eq!(MessageId::from_u8(0x11), MessageId::CommandTx);
    assert_eq!(MessageId::from_u8(0x00), MessageId::NoId);
    assert_eq!(MessageId::from_u8(0x7F), MessageId::NoId);
    assert_eq!(MessageId::CommandRx.to_u8(), 0x10);
    assert_eq!(MessageId::CommandTx.to_u8(), 0x11);
    assert_eq!(MessageId::default(), MessageId::NoId);
}

#[test]
fn encoder_builds_frame() {
    let mut enc = PacketEncoder::new([0u8; 16]);
    let frame = enc.create_packet(MessageId::CommandRx, &[1, 2, 3]);
    assert_eq!(frame, vec![0x10, 9, 0, 0, 0, 1, 2, 3, 0x91]);
}

#[test]
fn encoder_frame_of_empty_payload() {
    let mut enc = PacketEncoder::new([0u8; 6]);
    let frame = enc.create_packet(MessageId::CommandTx, &[]);
    assert_eq!(frame.len(), 6);
    assert_eq!(&frame[..5], &[0x11, 6, 0, 0, 0]);
    assert_eq!(frame[5], calculate_crc(&frame[..5]));
}

#[test]
fn decoder_finds_frame_after_noise() {
    let mut enc = PacketEncoder::new([0u8; 16]);
    let frame = enc.create_packet(MessageId::CommandRx, &[1, 2, 3]);
    let mut stream = vec![0x00, 0x42, 0x99];
    stream.extend_from_slice(&frame);
    let mut dec = PacketDecoder::new();
    assert_eq!(dec.get_valid_packet_index(&stream), Some(3));
    assert_eq!(dec.payload_bounds(frame.len()), Some((5, 8)));
}

#[test]
fn decoder_rejects_corrupted_frame() {
    let mut enc = PacketEncoder::new([0u8; 16]);
    let mut frame = enc.create_packet(MessageId::CommandRx, &[1, 2, 3]);
    frame[6] ^= 0xFF;
    let mut dec = PacketDecoder::new();
    assert_eq!(dec.get_valid_packet_index(&frame), None);
}

#[test]
fn decoder_short_stream() {
    let mut dec = PacketDecoder::new();
    assert_eq!(dec.get_valid_packet_index(&[0x10, 6, 0, 0]), None);
    assert_eq!(dec.payload_bounds(100), None);
}
