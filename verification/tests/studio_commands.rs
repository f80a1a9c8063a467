use can_flasher::studio::live_data::{start_nack_message, start_send_message, start_unexpected_message};
use can_flasher::flash::{Elapsed, FlashReport};
use can_flasher::studio::flash::JsonReport;
use can_flasher::cli::InterfaceType;
use can_flasher::flash::{FlashConfig, FlashEvent, SectorRole};
use can_flasher::studio::diagnose::unknown_reset_cause;
use can_flasher::studio::flash::{
    build_banner, build_exit_result, build_only_plan, build_step, check_image_base, convert_event,
    flash_config, parse_interface, resolve_build_cwd, should_jump, target_node, FlashStreamEvent,
};
use can_flasher::studio::live_data::{check_not_running, check_rate_hz, running_event, stopped_event, LiveDataStreamEvent};
use can_flasher::studio::logs::{
    bootloader_only_message, check_crc, check_echo, check_size, cursor_stuck_message, logfs_timeout_ms,
    logs_target_node, missing_index_message, read_stalled_message, retry_backoff_ms, should_retry,
};
use can_flasher::studio::provision::{provision_interface, provision_target, role_to_node_id};

#[test]
fn flash_request_decisions() {
    assert_eq!(parse_interface("pcan"), Ok(InterfaceType::Pcan));
    assert_eq!(parse_interface("can9").unwrap_err(), "unknown interface: can9");
    assert_eq!(target_node(None), 3);
    assert_eq!(target_node(Some(7)), 7);
    let c = flash_config(true, true, false, true);
    assert_eq!(c, FlashConfig { diff: true, dry_run: true, verify_after: false, write_chunk_size: 256, final_commit: false });
    assert!(flash_config(false, false, true, true).final_commit);
    assert!(should_jump(true, false));
    assert!(!should_jump(true, true));
    assert!(check_image_base(0x0802_0000).is_ok());
    assert_eq!(
        check_image_base(0x0800_0000).unwrap_err(),
        "firmware base 0x08000000 ≠ BL_APP_BASE (0x08020000)"
    );
}

#[test]
fn build_steps() {
    assert_eq!(build_step(Some("  make fw  ")), Some("make fw".to_string()));
    assert_eq!(build_step(Some("   ")), None);
    assert_eq!(build_step(None), None);
    assert_eq!(resolve_build_cwd(Some(" /src "), "/out/fw.elf"), " /src ");
    assert_eq!(resolve_build_cwd(Some("  "), "/out/fw.elf"), "/out");
    assert_eq!(resolve_build_cwd(None, "fw.elf"), "");
    assert_eq!(resolve_build_cwd(None, "/"), ".");
    assert_eq!(build_only_plan("  ", None).unwrap_err(), "build command is empty");
    assert_eq!(build_only_plan(" make ", Some(" dir ")).unwrap(), ("make".to_string(), "dir".to_string()));
    assert_eq!(build_only_plan("make", Some(" ")).unwrap(), ("make".to_string(), ".".to_string()));
    assert_eq!(build_banner("make"), "$ make");
    assert!(build_exit_result(true, Some(0)).is_ok());
    assert_eq!(build_exit_result(false, Some(2)).unwrap_err(), "build command exited with code Some(2)");
    assert_eq!(build_exit_result(false, None).unwrap_err(), "build command exited with code None");
}

#[test]
fn flash_events_convert() {
    assert_eq!(
        convert_event(&FlashEvent::PlanningSector { sector: 2, role: SectorRole::Skip }),
        FlashStreamEvent::Planning { sector: 2, role: "skip" }
    );
    assert_eq!(
        convert_event(&FlashEvent::SectorVerified { sector: 3, crc: 0xABCD }),
        FlashStreamEvent::Verified { sector: 3, crc: "0x0000ABCD".into() }
    );
    assert_eq!(convert_event(&FlashEvent::Committing), FlashStreamEvent::Committing);
}

#[test]
fn live_data_checks() {
    assert!(check_rate_hz(1).is_ok());
    assert!(check_rate_hz(50).is_ok());
    assert_eq!(check_rate_hz(0).unwrap_err(), "rateHz must be in 1..=50 (got 0)");
    assert_eq!(check_rate_hz(51).unwrap_err(), "rateHz must be in 1..=50 (got 51)");
    assert_eq!(check_not_running(true).unwrap_err(), "live-data stream already running — stop it first");
    assert_eq!(
        running_event(10),
        LiveDataStreamEvent::Status { status: "running", message: Some("streaming @ 10 Hz".into()) }
    );
    assert_eq!(stopped_event(), LiveDataStreamEvent::Status { status: "stopped", message: None });
    assert_eq!(unknown_reset_cause(0x7), "UNKNOWN (0x07)");
}

#[test]
fn provisioning_roles() {
    assert_eq!(role_to_node_id(" ECU "), Some(1));
    assert_eq!(role_to_node_id("ams"), Some(2));
    assert_eq!(role_to_node_id("Udv"), Some(3));
    assert_eq!(role_to_node_id("vcu"), None);
    assert_eq!(provision_target("vcu").unwrap_err(), "unknown role \"vcu\"; expected one of: ecu, ams, udv");
    assert_eq!(provision_interface("usb").unwrap_err(), "unknown interface \"usb\"");
    assert_eq!(provision_interface("slcan"), Ok(InterfaceType::Slcan));
}

#[test]
fn log_transfer_policy() {
    assert_eq!(logs_target_node(Some(2)), Ok(2));
    assert!(logs_target_node(None).unwrap_err().starts_with("no node id selected"));
    assert_eq!(logfs_timeout_ms(500), 2000);
    assert_eq!(logfs_timeout_ms(5000), 5000);
    assert!(should_retry(1, true));
    assert!(should_retry(2, true));
    assert!(!should_retry(3, true));
    assert!(!should_retry(1, false));
    assert_eq!(retry_backoff_ms(2), 120);
    assert!(check_echo("LOGFS_READ", 0x42, Some(0x42)).is_ok());
    assert!(check_echo("LOGFS_READ", 0x42, None).is_ok());
    assert_eq!(
        check_echo("LOGFS_READ", 0x43, Some(0x42)).unwrap_err(),
        "reply to LOGFS_READ echoes opcode 0x43, expected 0x42 — replies are out of step with requests"
    );
    assert_eq!(cursor_stuck_message(4), "LOGFS_LIST cursor stuck at 4");
    assert_eq!(read_stalled_message(512), "LOGFS_READ stalled at offset 512 before EOF");
    assert_eq!(missing_index_message(9), "no log with index 9 on the card");
    assert_eq!(check_size("L", 10, 9).unwrap_err(), "size mismatch for L: OPEN said 10 B, got 9 B");
    assert_eq!(check_crc("L", 1, 2).unwrap_err(), "CRC mismatch for L: node 0x00000001, received 0x00000002");
    assert!(bootloader_only_message("LOGFS_LIST").starts_with("no reply to LOGFS_LIST: the node is alive"));
}

#[test]
fn front_end_report_carries_whole_milliseconds() {
    let r = FlashReport {
        sectors_erased: vec![],
        sectors_written: vec![],
        sectors_skipped: vec![4],
        crc32: 1,
        size: 2,
        version: 3,
        duration: Elapsed { secs: 2, nanos: 5_000_000 },
    };
    let j = JsonReport::from_report(&r);
    assert_eq!(j.duration_ms, 2005);
    assert_eq!(j.duration_ms, std::time::Duration::new(2, 5_000_000).as_millis());
}

#[test]
fn live_data_start_reply_messages() {
    assert_eq!(start_nack_message(0x0A, "busy"), "device NACK'd LIVE_DATA_START (opcode 0x0A): busy");
    assert_eq!(start_unexpected_message("DATA"), "unexpected reply to LIVE_DATA_START: DATA");
    assert_eq!(start_send_message("timeout"), "send LIVE_DATA_START: timeout");
}
