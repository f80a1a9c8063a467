use can_flasher::studio::swd::parse_hex_u64;

#[test]
fn parses_hex_and_decimal() {
    assert_eq!(parse_hex_u64("0x08000000"), Some(0x0800_0000));
    assert_eq!(parse_hex_u64("0X08020000"), Some(0x0802_0000));
    assert_eq!(parse_hex_u64("134217728"), Some(0x0800_0000));
    assert_eq!(parse_hex_u64("not-hex"), None);
}
