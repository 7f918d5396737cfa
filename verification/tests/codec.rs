use shooter_core::codec::{DecodeError, PlayerEvent, EVENT_LEN};

#[test]
fn encode_writes_little_endian_record() {
    let e = PlayerEvent { player_id: 1, x_bits: 1.0f32.to_bits(), y_bits: 0 };
    let bytes = e.encode();
    assert_eq!(
        bytes,
        vec![1, 0, 0, 0, 0x00, 0x00, 0x80, 0x3F, 0, 0, 0, 0]
    );
}

#[test]
fn encode_is_always_twelve_bytes() {
    let e = PlayerEvent {
        player_id: u32::MAX,
        x_bits: f32::to_bits(-123.5),
        y_bits: f32::to_bits(f32::MIN_POSITIVE),
    };
    assert_eq!(e.encode().len(), EVENT_LEN);
}

#[test]
fn decode_returns_what_encode_wrote() {
    let e = PlayerEvent {
        player_id: 0xDEADBEEF,
        x_bits: f32::to_bits(3.25),
        y_bits: f32::to_bits(-0.0),
    };
    let back = PlayerEvent::decode(&e.encode()).unwrap();
    assert_eq!(back, e);
    assert_eq!(f32::from_bits(back.x_bits), 3.25);
}

#[test]
fn decode_rejects_short_buffer() {
    assert_eq!(
        PlayerEvent::decode(&[0; 11]),
        Err(DecodeError::WrongLength)
    );
}

#[test]
fn decode_rejects_long_buffer() {
    assert_eq!(
        PlayerEvent::decode(&[0; 13]),
        Err(DecodeError::WrongLength)
    );
}

#[test]
fn decode_reads_big_id() {
    let mut bytes = vec![0u8; 12];
    bytes[0] = 0x78;
    bytes[1] = 0x56;
    bytes[2] = 0x34;
    bytes[3] = 0x12;
    let e = PlayerEvent::decode(&bytes).unwrap();
    assert_eq!(e.player_id, 0x12345678);
}
