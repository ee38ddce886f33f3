use chat_backend::object_id::ObjectId;

#[test]
fn parses_lower_case_hex() {
    let id = ObjectId::parse_str("0123456789abcdef01234567").unwrap();
    assert_eq!(id.bytes, [0x01, 0x23, 0x45, 0x67, 0x89, 0xab, 0xcd, 0xef, 0x01, 0x23, 0x45, 0x67]);
}

#[test]
fn parses_upper_and_mixed_case_hex() {
    let id = ObjectId::parse_str("0123456789ABCDEF01234567").unwrap();
    assert_eq!(id.bytes, [0x01, 0x23, 0x45, 0x67, 0x89, 0xab, 0xcd, 0xef, 0x01, 0x23, 0x45, 0x67]);
    let mixed = ObjectId::parse_str("0123456789aBcDeF01234567").unwrap();
    assert_eq!(mixed, id);
}

#[test]
fn rejects_what_is_not_twenty_four_hex_digits() {
    assert!(ObjectId::parse_str("").is_none());
    assert!(ObjectId::parse_str("0123456789abcdef0123456").is_none());
    assert!(ObjectId::parse_str("0123456789abcdef012345678").is_none());
    assert!(ObjectId::parse_str("0123456789abcdef0123456g").is_none());
    assert!(ObjectId::parse_str("0123456789abcdef0123456\u{e9}").is_none());
    assert!(ObjectId::parse_str("not an id").is_none());
}

#[test]
fn formats_as_lower_case_hex() {
    let id = ObjectId::from_bytes([0, 1, 2, 3, 4, 5, 250, 251, 252, 253, 254, 255]);
    assert_eq!(id.to_hex(), "000102030405fafbfcfdfeff");
}

#[test]
fn hex_form_reads_back() {
    let id = ObjectId::from_bytes([9, 8, 7, 6, 5, 4, 3, 2, 1, 0, 171, 205]);
    assert_eq!(ObjectId::parse_str(&id.to_hex()), Some(id));
}

#[test]
fn new_identifiers_differ() {
    let a = ObjectId::new();
    let b = ObjectId::new();
    assert_ne!(a, b);
}

#[test]
fn equality_goes_by_the_bytes() {
    let a = ObjectId::from_bytes([1; 12]);
    let b = ObjectId::from_bytes([1; 12]);
    let mut other = [1u8; 12];
    other[11] = 2;
    assert!(a == b);
    assert!(a != ObjectId::from_bytes(other));
}
