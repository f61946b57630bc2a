use flemish::models::flightbooker::{date_text, notice};
use flemish::text::{signed, unsigned};

#[test]
fn dates_are_written_without_leading_zeros() {
    assert_eq!(date_text(2024, 2, 9), "2024-2-9");
    assert_eq!(date_text(1999, 12, 31), "1999-12-31");
    assert_eq!(date_text(0, 1, 1), "0-1-1");
    assert_eq!(date_text(-44, 3, 15), "-44-3-15");
    assert_eq!(date_text(i32::MIN, u32::MAX, 0), "-2147483648-4294967295-0");
}

#[test]
fn a_one_way_flight_is_noticed() {
    assert_eq!(
        notice(0, "2024-2-9", "2024-3-1"),
        "You have booked a one-way flight for 2024-2-9."
    );
    assert_eq!(notice(0, "", ""), "You have booked a one-way flight for .");
}

#[test]
fn a_return_flight_is_noticed() {
    assert_eq!(
        notice(1, "2024-2-9", "2024-3-1"),
        "You have booked a return flight from 2024-2-9 to 2024-3-1"
    );
    assert_eq!(notice(-1, "a", "b"), "You have booked a return flight from a to b");
}

#[test]
fn numbers_are_written_in_decimal() {
    assert_eq!(unsigned(0), "0");
    assert_eq!(unsigned(1234567890), "1234567890");
    assert_eq!(unsigned(u64::MAX), "18446744073709551615");
    assert_eq!(signed(0), "0");
    assert_eq!(signed(-1), "-1");
    assert_eq!(signed(907), "907");
    assert_eq!(signed(i64::MAX), "9223372036854775807");
    assert_eq!(signed(i64::MIN), "-9223372036854775808");
    for value in [-1000i64, -999, -10, -9, 9, 10, 99, 100, 1000] {
        assert_eq!(signed(value), value.to_string());
    }
}
