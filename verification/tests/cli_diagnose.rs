#![allow(unused_imports)]
use can_flasher::cli::diagnose::{dtc_table_lines, format_uptime_seconds, health_lines, live_data_line, log_entry_line, DtcRow, DtcSeverity, ResetMode};
use can_flasher::studio::live_data::SnapshotPayload;
use can_flasher::studio::diagnose::HealthSnapshot;
use can_flasher::protocol::ResetMode as ProtoResetMode;

#[test]
fn format_uptime_seconds_handles_ranges() {
        assert_eq!(format_uptime_seconds(0), "0s");
        assert_eq!(format_uptime_seconds(42), "42s");
        assert_eq!(format_uptime_seconds(90), "1m30s");
        assert_eq!(format_uptime_seconds(3700), "1h01m40s");
    }

#[test]
fn reset_mode_conversion_matches_protocol_bytes() {
        assert_eq!(ProtoResetMode::from(ResetMode::Hard).as_byte(), 0);
        assert_eq!(ProtoResetMode::from(ResetMode::Soft).as_byte(), 1);
        assert_eq!(ProtoResetMode::from(ResetMode::Bootloader).as_byte(), 2);
        assert_eq!(ProtoResetMode::from(ResetMode::App).as_byte(), 3);
    }


#[test]
fn health_lines_render_every_field() {
    let h = HealthSnapshot::from_parts(3642, None, 0x7E, 17, 2, 0x0010, true, true, false, 0b0001_0011);
    assert_eq!(h.reset_cause, "UNKNOWN (0x7E)");
    let named = HealthSnapshot::from_parts(1, Some("POWER_ON"), 1, 0, 0, 0, false, false, true, 0);
    assert_eq!(named.reset_cause, "POWER_ON");
    let lines = health_lines(&h);
    assert_eq!(
        lines,
        vec![
            "Device health",
            "─────────────",
            "  Uptime         : 3642s (1h00m42s)",
            "  Reset cause    : UNKNOWN (0x7E)",
            "  Session active : yes",
            "  Valid app      : yes",
            "  WRP protected  : no",
            "  Flash writes   : 17",
            "  DTC count      : 2",
            "  Last DTC code  : 0x0010",
            "  Raw flags      : 0x00000013",
        ]
    );
}

#[test]
fn dtc_table_matches_column_layout() {
    assert_eq!(dtc_table_lines(&[]), vec!["No DTCs logged."]);
    let rows = [
        DtcRow { code: 0x10, severity: DtcSeverity::Error, occurrence_count: 3, first_seen_uptime_seconds: 5, last_seen_uptime_seconds: 3600, context_data: 0xDEAD_BEEF },
        DtcRow { code: 0xABCD, severity: DtcSeverity::Unknown(7), occurrence_count: 255, first_seen_uptime_seconds: 0, last_seen_uptime_seconds: 1, context_data: 0 },
    ];
    let lines = dtc_table_lines(&rows);
    assert_eq!(lines.len(), 4);
    assert_eq!(
        lines[0],
        format!("{:<8}  {:<9}  {:<5}  {:>12}  {:>12}  {:<10}", "Code", "Severity", "Count", "First seen", "Last seen", "Context")
    );
    assert_eq!(
        lines[1],
        format!("{}  {}  {}  {}  {}  {}", "─".repeat(8), "─".repeat(9), "─".repeat(5), "─".repeat(12), "─".repeat(12), "─".repeat(10))
    );
    assert_eq!(lines[2], format!("0x{:04X}    {:<9}  {:>5}  {:>10}s  {:>10}s  0x{:08X}", 0x10, "ERROR", 3, 5, 3600, 0xDEAD_BEEFu32));
    assert_eq!(lines[3], format!("0x{:04X}    {:<9}  {:>5}  {:>10}s  {:>10}s  0x{:08X}", 0xABCD, format!("?({:#04X})", 7), 255, 0, 1, 0));
}

#[test]
fn log_entry_lines() {
    assert_eq!(log_entry_line(&[1, 2, 3]), "(log entry truncated: 3 bytes)");
    let mut p = vec![1u8, 0x0A, 0x39, 0x30, 0x00, 0x00];
    p.extend_from_slice(b"boot ok\0junk");
    assert_eq!(log_entry_line(&p), "[     12345ms] WARN  [flags=0x0A] boot ok");
    let p = [9u8, 0, 0, 0, 0, 0, 0xFF, b'x'];
    assert_eq!(log_entry_line(&p), format!("[{:>10}ms] {:<5} [flags=0x00] {}", 0, "?", String::from_utf8_lossy(&[0xFF, b'x'])));
}

#[test]
fn live_data_line_matches_terminal_format() {
    let p = SnapshotPayload {
        uptime_ms: 1234,
        frames_rx: 10,
        frames_tx: 9,
        nacks_sent: 1,
        dtc_count: 2,
        last_dtc_code: 0x10,
        flags: 0x13,
        last_opcode: 0x21,
        last_flash_addr: 0x0802_0000,
        isotp_rx_progress: 64,
        session_age_ms: 500,
        session_active: true,
        valid_app_present: true,
        log_streaming: false,
        livedata_streaming: true,
        wrp_protected: true,
    };
    assert_eq!(
        live_data_line(&p),
        format!(
            "[{:>10}ms] rx={:>5} tx={:>5} nacks={:>3} dtc={} last_op=0x{:02X} last_flash=0x{:08X} isotp_prog={} sess_age={}ms flags=0x{:02X}",
            1234, 10, 9, 1, 2, 0x21, 0x0802_0000u32, 64, 500, 0x13
        )
    );
}
