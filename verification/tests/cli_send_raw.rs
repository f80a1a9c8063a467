#![allow(unused_imports)]
use can_flasher::cli::send_raw::{hex_bytes, parse_can_id, parse_hex_byte};

#[test]
fn parse_can_id_accepts_hex() {
        assert_eq!(parse_can_id("0x31").unwrap(), 0x31);
        assert_eq!(parse_can_id("0X7FF").unwrap(), 0x7FF);
        assert_eq!(parse_can_id("0x000").unwrap(), 0);
    }

#[test]
fn parse_can_id_accepts_decimal() {
        assert_eq!(parse_can_id("49").unwrap(), 49);
        assert_eq!(parse_can_id("0").unwrap(), 0);
    }

#[test]
fn parse_can_id_rejects_extended() {
        // 0x800 is the smallest extended ID — we're 11-bit only.
        assert!(parse_can_id("0x800").is_err());
        assert!(parse_can_id("0xFFFF").is_err());
    }

#[test]
fn parse_can_id_rejects_junk() {
        assert!(parse_can_id("").is_err());
        assert!(parse_can_id("0xZZZ").is_err());
        assert!(parse_can_id("not-a-number").is_err());
    }

#[test]
fn parse_hex_byte_round_trips() {
        assert_eq!(parse_hex_byte("01").unwrap(), 0x01);
        assert_eq!(parse_hex_byte("0x0A").unwrap(), 0x0A);
        assert_eq!(parse_hex_byte("FF").unwrap(), 0xFF);
        assert_eq!(parse_hex_byte("ff").unwrap(), 0xFF);
    }

#[test]
fn parse_hex_byte_rejects_overflow() {
        // u8 max is 0xFF — anything higher is invalid.
        assert!(parse_hex_byte("0x100").is_err());
        assert!(parse_hex_byte("256").is_err()); // decimal not supported
    }

#[test]
fn parse_hex_byte_rejects_junk() {
        assert!(parse_hex_byte("").is_err());
        assert!(parse_hex_byte("zz").is_err());
    }

#[test]
fn hex_bytes_empty_renders_empty() {
        assert_eq!(hex_bytes(&[]), "");
    }

#[test]
fn hex_bytes_is_uppercase_space_separated() {
        assert_eq!(hex_bytes(&[0x01, 0x0A, 0xFF]), "01 0A FF");
    }
