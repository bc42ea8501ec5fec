use defi_suite::address::Address;
use defi_suite::text::decimal_text;

#[test]
fn decimal_text_matches_to_string() {
    for x in [0i64, 7, -7, 10, 99, 100, -1_000_000, 1_700_000_000, i64::MAX, i64::MIN] {
        assert_eq!(decimal_text(x), x.to_string());
    }
}

#[test]
fn base58_of_known_keys() {
    assert_eq!(Address::new([0u8; 32]).to_base58(), "11111111111111111111111111111111");
    let mut bytes = [0u8; 32];
    bytes[31] = 1;
    assert_eq!(Address::new(bytes).to_base58(), "11111111111111111111111111111112");
    let mut bytes = [0u8; 32];
    bytes[30] = 1;
    assert_eq!(Address::new(bytes).to_base58(), "1111111111111111111111111111115R");
    assert_eq!(Address::new([255u8; 32]).to_base58(), "JEKNVnkbo3jma5nREBBJCDoXFVeKkD56V3xKrvRmWxFG");
}

#[test]
fn address_equality_is_bytewise() {
    let a = Address::new([3u8; 32]);
    let mut other = [3u8; 32];
    assert!(a.equals(&Address::new(other)));
    other[31] = 4;
    assert!(!a.equals(&Address::new(other)));
    other[31] = 3;
    other[0] = 0;
    assert!(!a.equals(&Address::new(other)));
    assert_eq!(a.to_bytes(), vec![3u8; 32]);
}
