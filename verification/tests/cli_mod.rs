#![allow(unused_imports)]
use can_flasher::cli::{parse_node_id, ExitCodeHint};

#[test]
fn node_id_accepts_hex() {
        assert_eq!(parse_node_id("0x3").unwrap(), 0x3);
        assert_eq!(parse_node_id("0xF").unwrap(), 0xF);
    }

#[test]
fn node_id_accepts_decimal() {
        assert_eq!(parse_node_id("3").unwrap(), 3);
        assert_eq!(parse_node_id("15").unwrap(), 0xF);
    }

#[test]
fn node_id_rejects_overflow() {
        assert!(parse_node_id("16").is_err());
        assert!(parse_node_id("0x10").is_err());
    }

#[test]
fn node_id_rejects_junk() {
        assert!(parse_node_id("").is_err());
        assert!(parse_node_id("0xZZ").is_err());
    }

#[test]
fn exit_codes_match_requirements_table() {
        // Pin the numeric values — these leak into shell scripts and
        // CI assertions, so accidental renumbering is a breaking
        // change. Keep in sync with REQUIREMENTS.md § Exit codes.
        assert_eq!(ExitCodeHint::FlashError.exit_code(), 1);
        assert_eq!(ExitCodeHint::VerifyMismatch.exit_code(), 2);
        assert_eq!(ExitCodeHint::ProtectionViolation.exit_code(), 3);
        assert_eq!(ExitCodeHint::DeviceNotFound.exit_code(), 4);
        assert_eq!(ExitCodeHint::WrpNotApplied.exit_code(), 7);
        assert_eq!(ExitCodeHint::InputFileError.exit_code(), 8);
        assert_eq!(ExitCodeHint::AdapterMissing.exit_code(), 9);
        // 130 = 128 + SIGINT (shell convention for Ctrl-C).
        assert_eq!(ExitCodeHint::Interrupted.exit_code(), 130);
    }
