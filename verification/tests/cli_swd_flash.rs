#![allow(unused_imports)]
use can_flasher::bootloader_fetch::BootloaderFormat;
use can_flasher::cli::swd_flash::{parse_format, parse_hex_u64};

#[test]
fn parses_hex_and_decimal_addresses() {
        assert_eq!(parse_hex_u64("0x08000000"), Some(0x0800_0000));
        assert_eq!(parse_hex_u64("0X08020000"), Some(0x0802_0000));
        assert_eq!(parse_hex_u64("134217728"), Some(0x0800_0000));
        assert_eq!(parse_hex_u64("not-hex"), None);
        assert_eq!(parse_hex_u64("0xzz"), None);
    }

#[test]
fn parses_release_format() {
        assert_eq!(parse_format("elf").unwrap(), BootloaderFormat::Elf);
        assert_eq!(parse_format("HEX").unwrap(), BootloaderFormat::Hex);
        assert_eq!(parse_format("bin").unwrap(), BootloaderFormat::Bin);
        assert!(parse_format("img").is_err());
    }
