#![allow(unused_imports)]
use can_flasher::cli::verify::parse_hex_u32;

#[test]
fn verify_parse_hex_u32_handles_both_forms() {
        assert_eq!(parse_hex_u32("0x08020000").unwrap(), 0x0802_0000);
        assert_eq!(parse_hex_u32("0X08020000").unwrap(), 0x0802_0000);
        assert_eq!(parse_hex_u32("16").unwrap(), 16);
    }
