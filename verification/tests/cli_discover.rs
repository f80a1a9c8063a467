#![allow(unused_imports)]
use can_flasher::cli::discover::{format_git_hash, human_report, max_width, DiscoverRow};

fn sample_rows() -> Vec<DiscoverRow> {
    vec![
        DiscoverRow {
            node_id: 0x03,
            proto_major: 0,
            proto_minor: 1,
            fw_version: Some("1.4.2".into()),
            git_hash: Some("a1b2c3d4".into()),
            product: Some("IFS08-CE-ECU".into()),
            fw_error: None,
            wrp_protected: Some(true),
            reset_cause: Some("POWER_ON".into()),
            health_error: None,
        },
        DiscoverRow {
            node_id: 0x05,
            proto_major: 0,
            proto_minor: 1,
            fw_version: None,
            git_hash: None,
            product: None,
            fw_error: Some("no app installed".into()),
            wrp_protected: Some(false),
            reset_cause: Some("IWDG".into()),
            health_error: None,
        },
    ]
}

fn human_output(rows: &[DiscoverRow]) -> String {
    human_report(rows)
}

#[test]
fn empty_report_prints_helpful_hint() {
        let s = human_output(&[]);
        assert!(s.contains("No bootloaders replied"));
        assert!(s.contains("--timeout-ms"));
    }

#[test]
fn human_output_has_all_columns() {
        let s = human_output(&sample_rows());
        for header in [
            "Node",
            "Proto",
            "FW Version",
            "Git Hash",
            "Product",
            "WRP",
            "Reset Cause",
        ] {
            assert!(s.contains(header), "missing column header {header}: {s}");
        }
    }

#[test]
fn human_output_formats_healthy_row_fields() {
        let s = human_output(&sample_rows());
        assert!(s.contains("0x03"));
        assert!(s.contains("0.1"));
        assert!(s.contains("1.4.2"));
        assert!(s.contains("a1b2c3d4"));
        assert!(s.contains("IFS08-CE-ECU"));
        assert!(s.contains("✓"));
        assert!(s.contains("POWER_ON"));
    }

#[test]
fn human_output_substitutes_em_dash_for_missing_fields() {
        let rows = vec![DiscoverRow::new(0x02, 0, 1)];
        let s = human_output(&rows);
        // Proto populated, everything else is "—".
        assert!(s.contains("0x02"));
        assert!(s.contains("—"));
    }

#[test]
fn human_output_surfaces_fw_error_in_fw_column() {
        let rows = vec![DiscoverRow {
            node_id: 0x05,
            proto_major: 0,
            proto_minor: 1,
            fw_error: Some("no app installed".into()),
            ..DiscoverRow::new(0x05, 0, 1)
        }];
        let s = human_output(&rows);
        assert!(s.contains("no app installed"));
    }

#[test]
fn format_git_hash_produces_8_hex_chars() {
        let bytes = [0xAB, 0xCD, 0xEF, 0x01, 0xFF, 0xEE, 0xDD, 0xCC];
        assert_eq!(format_git_hash(&bytes), "abcdef01");
    }

#[test]
fn max_width_respects_header_when_wider_than_data() {
        let cells = vec!["a".to_string(), "b".to_string()];
        assert_eq!(max_width("FW Version", &cells), "FW Version".len());
    }
