use mini_tracker::number::{read_decimal_i32, read_i32};

#[test]
fn plain_numbers_are_read() {
    assert_eq!(read_i32("0"), Some(0));
    assert_eq!(read_i32("7"), Some(7));
    assert_eq!(read_i32("12"), Some(12));
    assert_eq!(read_i32("007"), Some(7));
    assert_eq!(read_i32("2147483647"), Some(i32::MAX));
}

#[test]
fn signs_are_read() {
    assert_eq!(read_i32("+7"), Some(7));
    assert_eq!(read_i32("-7"), Some(-7));
    assert_eq!(read_i32("-0"), Some(0));
    assert_eq!(read_i32("+0"), Some(0));
    assert_eq!(read_i32("-2147483648"), Some(i32::MIN));
    assert_eq!(read_i32("-0000000002147483648"), Some(i32::MIN));
}

#[test]
fn numbers_that_do_not_fit_are_refused() {
    assert_eq!(read_i32("2147483648"), None);
    assert_eq!(read_i32("+2147483648"), None);
    assert_eq!(read_i32("-2147483649"), None);
    assert_eq!(read_i32("99999999999999999999999999"), None);
    assert_eq!(read_i32("-99999999999999999999999999"), None);
}

#[test]
fn other_texts_are_refused() {
    for text in ["", "+", "-", "--1", "+-1", "1-", " 1", "1 ", "1_000", "1.0", "0x10", "abc", "1a", "\u{0661}"]
    {
        assert_eq!(read_i32(text), None);
    }
    assert_eq!(read_decimal_i32(&[0x31, 0xff]), None);
    assert_eq!(read_decimal_i32(&[0x31, 0x32]), Some(12));
}

#[test]
fn reading_agrees_with_the_standard_parser() {
    let texts = [
        "", "0", "-0", "+0", "1", "-1", "+1", "10", "0010", "2147483646", "2147483647",
        "2147483648", "2147483649", "-2147483647", "-2147483648", "-2147483649", "21474836470",
        "4294967296", "9223372036854775807", "9223372036854775808", "+", "-", "++1", "1+", "12a",
        "a12", "1 2", "١٢", "１２", "1e3",
    ];
    for text in texts {
        assert_eq!(read_i32(text), text.parse::<i32>().ok(), "{:?}", text);
    }
    for number in [i32::MIN, i32::MIN + 1, -1000, -1, 0, 1, 999, i32::MAX - 1, i32::MAX] {
        assert_eq!(read_i32(&number.to_string()), Some(number));
    }
}
