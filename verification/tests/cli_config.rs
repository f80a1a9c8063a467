#![allow(unused_imports)]
use can_flasher::cli::config::{nvm_read_human, ob_read_human, parse_nvm_value, NvmReadJson, ObStatusJson};
use can_flasher::protocol::{ObStatus, OB_APPLY_TOKEN};

#[test]
fn parse_nvm_value_accepts_plain_string() {
        assert_eq!(parse_nvm_value("hello").unwrap(), b"hello".to_vec());
        assert_eq!(parse_nvm_value("").unwrap(), Vec::<u8>::new());
    }

#[test]
fn parse_nvm_value_accepts_hex_blob() {
        assert_eq!(
            parse_nvm_value("0xDEADBEEF").unwrap(),
            vec![0xDE, 0xAD, 0xBE, 0xEF]
        );
        assert_eq!(parse_nvm_value("0x00").unwrap(), vec![0x00]);
        assert_eq!(parse_nvm_value("0xAA").unwrap(), vec![0xAA]);
    }

#[test]
fn parse_nvm_value_accepts_lowercase_0x() {
        assert_eq!(parse_nvm_value("0XFF").unwrap(), vec![0xFF]);
    }

#[test]
fn parse_nvm_value_rejects_odd_digit_hex() {
        let err = parse_nvm_value("0xABC").unwrap_err();
        assert!(err.message().contains("even number of digits"));
    }

#[test]
fn parse_nvm_value_rejects_empty_hex() {
        let err = parse_nvm_value("0x").unwrap_err();
        assert!(err.message().contains("at least one digit pair"));
    }

#[test]
fn parse_nvm_value_rejects_bad_hex_char() {
        let err = parse_nvm_value("0xGG").unwrap_err();
        assert!(err.message().contains("bad hex pair"));
    }

#[test]
fn ob_status_json_lists_protected_sectors() {
        let status = ObStatus {
            wrp_sector_mask: 0b0000_1001, // sectors 0 + 3
            user_config: 0xCAFE_BABE,
            rdp_level: 0xAA,
            bor_level: 0x01,
            reserved: [0, 0],
            reserved_ext: 0,
        };
        let json = ObStatusJson::from_status(&status);
        assert_eq!(json.wrp_sectors, vec![0, 3]);
        assert_eq!(json.wrp_sector_mask, "0x00000009");
        assert_eq!(json.user_config, "0xCAFEBABE");
    }

#[test]
fn ob_status_json_has_empty_sectors_when_nothing_protected() {
        let status = ObStatus {
            wrp_sector_mask: 0,
            user_config: 0,
            rdp_level: 0xAA,
            bor_level: 0,
            reserved: [0, 0],
            reserved_ext: 0,
        };
        let json = ObStatusJson::from_status(&status);
        assert!(json.wrp_sectors.is_empty());
    }

#[test]
fn ob_apply_token_const_matches_protocol() {
        // Keeps the CLI and the protocol module in sync. If this
        // changes, host-side builders and device-side handlers both
        // need the new value.
        assert_eq!(OB_APPLY_TOKEN, 0x00505257);
    }

#[test]
fn ob_read_report_text() {
    use_ob_read();
}

fn use_ob_read() {
    let st = ObStatus { wrp_sector_mask: 0b0000_0101, user_config: 0x1234, rdp_level: 0xAA, bor_level: 0x0C, reserved: [0, 0], reserved_ext: 0 };
    let j = ObStatusJson::from_status(&st);
    assert_eq!(
        ob_read_human(&j),
        "Option bytes\n────────────\n  WRP mask     : 0x00000005\n  WRP sectors  : #0, #2\n  User config  : 0x00001234\n  RDP level    : 0xAA\n  BOR level    : 0x0C\n"
    );
    let none = ObStatus { wrp_sector_mask: 0, ..st };
    assert!(ob_read_human(&ObStatusJson::from_status(&none)).contains("  WRP sectors  : (none — no sectors write-protected)\n"));
}

#[test]
fn nvm_read_report() {
    assert_eq!(
        nvm_read_human(0x0001, b"hi"),
        "Key 0x0001: 2 byte(s)\n  hex  : 0x6869\n  utf8 : \"hi\"\n"
    );
    assert_eq!(
        nvm_read_human(0x00AB, &[0xFF, 0x00]),
        "Key 0x00AB: 2 byte(s)\n  hex  : 0xff00\n  utf8 : (not valid UTF-8)\n"
    );
    let j = NvmReadJson::new(0x10, &[0x41, 0x42]);
    assert_eq!(j.key, "0x0010");
    assert_eq!(j.len, 2);
    assert_eq!(j.value_hex, "4142");
    assert_eq!(j.value_utf8, Some("AB".to_string()));
    assert_eq!(NvmReadJson::new(1, &[0xC3]).value_utf8, None);
}
