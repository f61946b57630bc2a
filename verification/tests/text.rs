use flemish::codec::encode_limit;
use flemish::text::decimal;

#[test]
fn decimal_writes_every_byte_without_leading_zeros() {
    assert_eq!(decimal(0), "0");
    assert_eq!(decimal(9), "9");
    assert_eq!(decimal(10), "10");
    assert_eq!(decimal(42), "42");
    assert_eq!(decimal(99), "99");
    assert_eq!(decimal(100), "100");
    assert_eq!(decimal(101), "101");
    assert_eq!(decimal(255), "255");
    for value in 0..=255u8 {
        assert_eq!(decimal(value), value.to_string());
    }
}

#[test]
fn the_encode_limit_is_a_quarter_of_the_address_space() {
    assert_eq!(encode_limit(), usize::MAX / 4);
}
