#![allow(unused_imports)]
use can_flasher::cli::flash::{progress_step, JsonEvent, ProgressOutput, ProgressState};
use can_flasher::flash::{Elapsed, FlashEvent, FlashReport};
use can_flasher::cli::flash::{build_flash_config, hex_encode, parse_hex_u32, FlashArgs};

#[test]
fn build_flash_config_honours_negative_flags() {
        let args = FlashArgs {
            firmware: String::from("x.bin"),
            address: None,
            require_wrp: false,
            apply_wrp: false,
            diff: true,
            no_diff: true,
            dry_run: false,
            verify_after: true,
            no_verify_after: true,
            jump: true,
            no_jump: false,
            keepalive_ms: 5000,
            profile: false,
        };
        let cfg = build_flash_config(&args);
        assert!(!cfg.diff, "--no-diff should win");
        assert!(!cfg.verify_after, "--no-verify-after should win");
        assert!(cfg.final_commit, "final_commit only off under dry_run");
    }

#[test]
fn build_flash_config_dry_run_skips_final_commit() {
        let args = FlashArgs {
            firmware: String::from("x.bin"),
            address: None,
            require_wrp: false,
            apply_wrp: false,
            diff: true,
            no_diff: false,
            dry_run: true,
            verify_after: true,
            no_verify_after: false,
            jump: true,
            no_jump: false,
            keepalive_ms: 5000,
            profile: false,
        };
        let cfg = build_flash_config(&args);
        assert!(cfg.dry_run);
        assert!(!cfg.final_commit, "dry-run disables final FLASH_VERIFY");
    }

#[test]
fn flash_parse_hex_u32_handles_both_forms() {
        assert_eq!(parse_hex_u32("0x08020000").unwrap(), 0x0802_0000);
        assert_eq!(parse_hex_u32("16").unwrap(), 16);
    }

#[test]
fn hex_encode_lowercase() {
        assert_eq!(hex_encode(&[0xDE, 0xAD]), "dead");
    }

fn done_report(secs: u64, nanos: u32) -> FlashReport {
    FlashReport {
        sectors_erased: vec![1],
        sectors_written: vec![1],
        sectors_skipped: vec![2, 3],
        crc32: 0xDEADBEEF,
        size: 1024,
        version: 0x0001_0200,
        duration: Elapsed { secs, nanos },
    }
}

#[test]
fn done_event_reports_whole_milliseconds() {
    let ev = FlashEvent::Done { report: done_report(1, 234_567_890) };
    match JsonEvent::from_event(&ev) {
        JsonEvent::Done { duration_ms } => assert_eq!(duration_ms, 1234),
        other => panic!("unexpected {:?}", other),
    }
    let mut st = ProgressState::new();
    let out = progress_step(&mut st, &ev, false);
    assert_eq!(out.len(), 1);
    match &out[0] {
        ProgressOutput::Say(s) => assert_eq!(s, "Done — erased 1 written 1 skipped 2 in 1234 ms"),
        other => panic!("unexpected {:?}", other),
    }
    let d = std::time::Duration::new(1, 234_567_890);
    assert_eq!(Elapsed { secs: 1, nanos: 234_567_890 }.as_millis(), d.as_millis());
}

#[test]
fn done_milliseconds_keep_low_bits_past_u64() {
    let secs = u64::MAX;
    let expected = (std::time::Duration::new(secs, 999_999_999).as_millis()) as u64;
    match JsonEvent::from_event(&FlashEvent::Done { report: done_report(secs, 999_999_999) }) {
        JsonEvent::Done { duration_ms } => assert_eq!(duration_ms, expected),
        other => panic!("unexpected {:?}", other),
    }
}
