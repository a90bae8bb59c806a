use nephila::format::{decimal, to_hex, uuid_string};

#[test]
fn uuid_string_matches_the_uuid_crate() {
    for v in [0u128, 1, 0x550e8400e29b41d4a716446655440000, u128::MAX, 0x0123456789abcdef_fedcba9876543210] {
        assert_eq!(uuid_string(v), uuid::Uuid::from_u128(v).hyphenated().to_string());
    }
}

#[test]
fn hex_and_decimal() {
    assert_eq!(to_hex(&[0x00, 0x0f, 0xa0, 0xff]), "000fa0ff");
    assert_eq!(to_hex(&[]), "");
    assert_eq!(decimal(0), "0");
    assert_eq!(decimal(7), "7");
    assert_eq!(decimal(1000), "1000");
    assert_eq!(decimal(u64::MAX), u64::MAX.to_string());
}
