use cameleon::text::{decimal, with_number};

#[test]
fn numbers_are_written_in_decimal() {
    assert_eq!(decimal(0), "0");
    assert_eq!(decimal(7), "7");
    assert_eq!(decimal(10), "10");
    assert_eq!(decimal(41216), "41216");
    assert_eq!(decimal(1_234_567_890), "1234567890");
    assert_eq!(decimal(u64::MAX), "18446744073709551615");
    for n in 0..2000u64 {
        assert_eq!(decimal(n), format!("{}", n));
    }
    assert_eq!(with_number("size: ", 52), "size: 52");
    assert_eq!(with_number("", 0), "0");
}
