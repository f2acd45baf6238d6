use playwith::text::{decimal, flag_word};

#[test]
fn numbers_are_written_in_decimal() {
    assert_eq!(decimal(0), "0");
    assert_eq!(decimal(7), "7");
    assert_eq!(decimal(9), "9");
    assert_eq!(decimal(10), "10");
    assert_eq!(decimal(109), "109");
    assert_eq!(decimal(0x002508), "9480");
    assert_eq!(decimal(1234567890), "1234567890");
    assert_eq!(decimal(u32::MAX), "4294967295");
    for n in [11u32, 99, 100, 101, 65535, 65536, 999_999_999, 1_000_000_000] {
        assert_eq!(decimal(n), n.to_string());
    }
}

#[test]
fn flags_are_written_as_words() {
    assert_eq!(flag_word(true), "true");
    assert_eq!(flag_word(false), "false");
}
