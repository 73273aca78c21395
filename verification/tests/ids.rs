use auth_service::ids::ObjectId;

#[test]
fn to_hex_is_lowercase_high_nibble_first() {
    let id = ObjectId::from_bytes([0, 1, 2, 3, 4, 5, 6, 7, 8, 9, 0xab, 0xff]);
    assert_eq!(id.to_hex(), "00010203040506070809abff");
}

#[test]
fn parse_str_accepts_24_hex_digits_of_either_case() {
    let id = ObjectId::parse_str("65A1B2C3D4E5F60718293A4B").expect("valid id text");
    assert_eq!(
        id.bytes,
        [0x65, 0xa1, 0xb2, 0xc3, 0xd4, 0xe5, 0xf6, 0x07, 0x18, 0x29, 0x3a, 0x4b]
    );
    assert_eq!(id.to_hex(), "65a1b2c3d4e5f60718293a4b");
}

#[test]
fn parse_str_refuses_other_texts() {
    assert!(ObjectId::parse_str("").is_none());
    assert!(ObjectId::parse_str("65a1b2c3d4e5f60718293a4").is_none());
    assert!(ObjectId::parse_str("65a1b2c3d4e5f60718293a4b0").is_none());
    assert!(ObjectId::parse_str("65a1b2c3d4e5f60718293a4g").is_none());
    assert!(ObjectId::parse_str("not an object id at all!").is_none());
}

#[test]
fn hex_round_trip() {
    let id = ObjectId::from_bytes([255, 254, 0, 17, 34, 51, 68, 85, 102, 119, 136, 153]);
    let text = id.to_hex();
    assert_eq!(ObjectId::parse_str(&text), Some(id));
}

#[test]
fn fresh_ids_differ_and_round_trip() {
    let a = ObjectId::new();
    let b = ObjectId::new();
    assert_ne!(a, b);
    assert_eq!(ObjectId::parse_str(&a.to_hex()), Some(a));
}
