use hutopia::uuid_protocol::{uuid_to_string, SerializableUuid};

#[test]
fn uuid_bytes_are_big_endian() {
    let mut bytes = [0u8; 16];
    bytes[15] = 0x2a;
    bytes[0] = 0x01;
    let u = SerializableUuid::from_bytes(bytes);
    assert_eq!(u.0, (1u128 << 120) | 0x2a);
    assert_eq!(u.to_bytes(), bytes);
}

#[test]
fn uuid_round_trip_write_then_read() {
    for v in [0u128, 1, u128::MAX, 0x0123_4567_89ab_cdef_0011_2233_4455_6677] {
        let u = SerializableUuid(v);
        let back = SerializableUuid::from_bytes(u.to_bytes());
        assert_eq!(back, u);
        assert_eq!(u.to_bytes(), v.to_be_bytes());
    }
}

#[test]
fn uuid_not_gives_inner_value() {
    let u = SerializableUuid(77);
    assert_eq!(!u, 77u128);
}

#[test]
fn uuid_text_is_hyphenated_lower_hex() {
    assert_eq!(uuid_to_string(0), "00000000-0000-0000-0000-000000000000");
    assert_eq!(
        uuid_to_string(0x0123_4567_89ab_cdef_0011_2233_4455_6677),
        "01234567-89ab-cdef-0011-223344556677"
    );
    for v in [0u128, 1, u128::MAX, 0xdead_beef_0000_1111_2222_3333_4444_5555] {
        assert_eq!(uuid_to_string(v), uuid::Uuid::from_u128(v).to_string());
    }
}
