use mock_data::decimal::{append_decimal, decimal_text};

#[test]
fn decimal_text_of_small_and_large_numbers() {
    assert_eq!(decimal_text(0), "0");
    assert_eq!(decimal_text(7), "7");
    assert_eq!(decimal_text(9), "9");
    assert_eq!(decimal_text(10), "10");
    assert_eq!(decimal_text(25), "25");
    assert_eq!(decimal_text(100), "100");
    assert_eq!(decimal_text(1009), "1009");
    assert_eq!(decimal_text(12345), "12345");
    assert_eq!(decimal_text(60000), "60000");
    assert_eq!(decimal_text(65535), "65535");
}

#[test]
fn decimal_text_agrees_with_the_standard_notation() {
    for n in 0..=u16::MAX {
        assert_eq!(decimal_text(n), format!("{}", n));
    }
}

#[test]
fn append_decimal_keeps_what_was_there() {
    let mut out = String::from("force: ");
    append_decimal(&mut out, 15);
    assert_eq!(out, "force: 15");
    append_decimal(&mut out, 0);
    assert_eq!(out, "force: 150");
    append_decimal(&mut out, 65535);
    assert_eq!(out, "force: 15065535");
}
