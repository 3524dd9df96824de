use aicap_handshake::text::decimal_text;

#[test]
fn decimal_text_has_no_leading_zeros() {
    assert_eq!(decimal_text(0), "0");
    assert_eq!(decimal_text(7), "7");
    assert_eq!(decimal_text(10), "10");
    assert_eq!(decimal_text(99), "99");
    assert_eq!(decimal_text(100), "100");
    assert_eq!(decimal_text(404), "404");
    assert_eq!(decimal_text(1000), "1000");
    assert_eq!(decimal_text(9999), "9999");
    assert_eq!(decimal_text(10000), "10000");
    assert_eq!(decimal_text(65535), "65535");
}

#[test]
fn decimal_text_agrees_with_the_standard_formatting() {
    for value in 0..=u16::MAX {
        assert_eq!(decimal_text(value), format!("{}", value));
    }
}

#[test]
fn decimal_text_reads_back() {
    for value in [0u16, 1, 9, 10, 11, 255, 256, 1455, 8080, 65535] {
        assert_eq!(decimal_text(value).parse::<u16>(), Ok(value));
    }
}
