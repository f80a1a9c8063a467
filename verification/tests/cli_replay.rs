#![allow(unused_imports)]
use std::time::{Duration, SystemTime, UNIX_EPOCH};

use can_flasher::cli::replay::{format_candump_line, hex_encode, parse_candump_line, sanitize_interface};
use can_flasher::protocol::CanFrame;

/// The candump line of `frame` stamped with the wall-clock time `ts`.
fn format_at(frame: &CanFrame, iface: &str, ts: SystemTime) -> String {
    let elapsed = ts.duration_since(UNIX_EPOCH).unwrap_or_default();
    format_candump_line(frame, iface, elapsed.as_secs(), elapsed.subsec_micros())
}

#[test]
fn format_line_handles_11_bit_id_and_short_payload() {
        let frame = CanFrame::new(0x123, &[0xAA, 0xBB, 0xCC]).unwrap();
        let ts = UNIX_EPOCH + Duration::new(1_609_459_200, 123_456_000);
        let line = format_at(&frame, "vcan0", ts);
        assert_eq!(line, "(1609459200.123456) vcan0 123#AABBCC");
    }

#[test]
fn format_line_handles_empty_payload() {
        let frame = CanFrame::new(0x003, &[]).unwrap();
        let ts = UNIX_EPOCH + Duration::new(0, 0);
        let line = format_at(&frame, "virtual", ts);
        assert_eq!(line, "(0.000000) virtual 003#");
    }

#[test]
fn format_line_pads_id_to_three_hex_chars() {
        let frame = CanFrame::new(0x003, &[]).unwrap();
        let ts = UNIX_EPOCH;
        let line = format_at(&frame, "can0", ts);
        assert!(
            line.contains(" 003#"),
            "id should be 3-hex-char padded: {line}"
        );
    }

#[test]
fn parse_line_round_trips() {
        let original = "(1609459200.123456) vcan0 123#AABBCC";
        let parsed = parse_candump_line(original).unwrap();
        assert_eq!(parsed.timestamp.parse::<f64>().unwrap(), 1_609_459_200.123456);
        assert_eq!(parsed.interface, "vcan0");
        assert_eq!(parsed.id, 0x123);
        assert_eq!(parsed.len, 3);
        assert_eq!(&parsed.data[..3], &[0xAA, 0xBB, 0xCC]);
    }

#[test]
fn parse_line_accepts_empty_payload() {
        let parsed = parse_candump_line("(0.000000) v 003#").unwrap();
        assert_eq!(parsed.len, 0);
        assert_eq!(parsed.id, 0x003);
    }

#[test]
fn parse_line_rejects_extended_id() {
        let err = parse_candump_line("(1.000000) c 12345678#AA").unwrap_err();
        assert!(err.to_string().contains("11-bit only"));
    }

#[test]
fn parse_line_rejects_missing_hash() {
        let err = parse_candump_line("(1.000000) c 123AABB").unwrap_err();
        assert!(err.to_string().contains("separator missing"));
    }

#[test]
fn parse_line_rejects_odd_hex() {
        let err = parse_candump_line("(1.000000) c 123#AAB").unwrap_err();
        assert!(err.to_string().contains("odd number of hex digits"));
    }

#[test]
fn parse_line_rejects_oversize_payload() {
        // 9 bytes (18 hex chars) — classic CAN caps at 8.
        let err = parse_candump_line("(1.000000) c 123#AABBCCDDEEFF0011223344").unwrap_err();
        assert!(err.to_string().contains("exceeds classic CAN max"));
    }

#[test]
fn sanitize_interface_replaces_slashes_and_spaces() {
        assert_eq!(sanitize_interface("/dev/ttyACM0"), "dev_ttyACM0");
        assert_eq!(sanitize_interface("PCAN_USBBUS1"), "PCAN_USBBUS1");
        assert_eq!(sanitize_interface("can0"), "can0");
    }

#[test]
fn hex_encode_is_uppercase_and_packed() {
        assert_eq!(hex_encode(&[0xDE, 0xAD, 0xBE, 0xEF]), "DEADBEEF");
        assert_eq!(hex_encode(&[]), "");
    }

#[test]
fn round_trip_through_parse_preserves_fields() {
        let frame =
            CanFrame::new(0x7FF, &[0x01, 0x02, 0x03, 0x04, 0x05, 0x06, 0x07, 0x08]).unwrap();
        let ts = UNIX_EPOCH + Duration::new(42, 999_999_000);
        let line = format_at(&frame, "vcan0", ts);
        let parsed = parse_candump_line(&line).unwrap();
        assert_eq!(parsed.id, frame.id);
        assert_eq!(parsed.len, frame.len);
        assert_eq!(parsed.data, frame.data);
        assert_eq!(parsed.interface, "vcan0");
        // Microsecond precision: 999999 µs → 0.999999 s
        assert!((parsed.timestamp.parse::<f64>().unwrap() - 42.999999).abs() < 1e-9);
    }
