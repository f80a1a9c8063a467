#![allow(unused_imports)]
use can_flasher::cli::adapters::{collect_report, human_report, AdapterReport, DetectedAdapters, PcanEntry, PlatformSupport, SlcanEntry, SocketCanEntry, VectorEntry};

const LINUX: PlatformSupport = PlatformSupport { pcan_basic: false, socketcan: true, vector: false };

fn sample_report() -> AdapterReport {
    AdapterReport {
        slcan: vec![SlcanEntry {
            channel: "/dev/ttyACM0".into(),
            description: "CANable 2.0 (/dev/ttyACM0, USB 1d50:606f)".into(),
            vid: Some("0x1d50".into()),
            pid: Some("0x606f".into()),
        }],
        socketcan: vec![SocketCanEntry { interface: "can0".into() }],
        pcan: vec![PcanEntry { channel: "PCAN_USBBUS1".into(), channel_byte: "0x51".into() }],
        vector: vec![VectorEntry {
            channel: "0".into(),
            name: "VN1610 1 Channel 1".into(),
            transceiver: "CAN - TJA1041".into(),
        }],
    }
}

fn human_string(report: &AdapterReport) -> String {
    human_report(report, LINUX)
}

#[test]
fn human_output_has_four_section_headers() {
        let s = human_string(&sample_report());
        assert!(s.contains("SLCAN serial ports:"));
        assert!(s.contains("PCAN devices:"));
        assert!(s.contains("Vector XL devices:"));
        assert!(s.contains("SocketCAN interfaces:"));
    }

#[test]
fn human_output_lists_slcan_entries() {
        let s = human_string(&sample_report());
        assert!(s.contains("/dev/ttyACM0"));
        assert!(s.contains("CANable 2.0"));
    }

#[test]
fn human_output_for_empty_slcan_says_none_detected() {
        let report = AdapterReport {
            slcan: vec![],
            socketcan: vec![SocketCanEntry {
                interface: "can0".into(),
            }],
            pcan: vec![],
            vector: vec![],
        };
        let s = human_string(&report);
        assert!(s.contains("SLCAN serial ports:\n  (none detected)"));
    }

#[test]
fn human_output_pads_channel_column() {
        // Two SLCAN entries with different channel lengths — the
        // formatter should pad to the longer one.
        let report = AdapterReport {
            slcan: vec![
                SlcanEntry {
                    channel: "COM3".into(),
                    description: "short".into(),
                    vid: None,
                    pid: None,
                },
                SlcanEntry {
                    channel: "/dev/cu.usbmodem14201".into(),
                    description: "long".into(),
                    vid: None,
                    pid: None,
                },
            ],
            ..Default::default()
        };
        let s = human_string(&report);
        // Both rows should align — find the line-starting index of
        // each description by locating the substring.
        let com3_line = s
            .lines()
            .find(|l| l.contains("COM3"))
            .expect("COM3 line present");
        let long_line = s
            .lines()
            .find(|l| l.contains("/dev/cu.usbmodem14201"))
            .expect("long line present");
        let com3_desc_off = com3_line.find("short").unwrap();
        let long_desc_off = long_line.find("long").unwrap();
        assert_eq!(
            com3_desc_off, long_desc_off,
            "description columns should align"
        );
    }

#[test]
fn human_output_surfaces_platform_limits() {
    // On Linux PCAN-Basic and Vector XL are unavailable.
    let s = human_report(&AdapterReport::default(), LINUX);
    assert!(s.contains("PCAN-Basic only supported on Windows / macOS"));
    assert!(s.contains("Vector XL Driver Library is currently Windows-only"));
}

#[test]
fn collect_report_formats_detected_adapters() {
    let found = DetectedAdapters {
        slcan: vec![
            ("/dev/ttyACM0".to_string(), "CANable".to_string(), Some((0x1d50, 0x606f))),
            ("COM3".to_string(), "USB serial".to_string(), None),
        ],
        socketcan: vec!["can0".to_string()],
        pcan: vec![("PCAN_USBBUS1".to_string(), 0x51)],
        vector: vec![(1, "VN1610".to_string(), "CANpiggy".to_string())],
    };
    let linux = PlatformSupport { pcan_basic: false, socketcan: true, vector: false };
    let r = collect_report(found, linux);
    assert_eq!(r.slcan.len(), 2);
    assert_eq!(r.slcan[0].vid.as_deref(), Some("0x1d50"));
    assert_eq!(r.slcan[0].pid.as_deref(), Some("0x606f"));
    assert_eq!(r.slcan[1].vid, None);
    assert_eq!(r.socketcan.len(), 1);
    assert_eq!(r.socketcan[0].interface, "can0");
    assert!(r.pcan.is_empty());
    assert!(r.vector.is_empty());
    let windows = PlatformSupport { pcan_basic: true, socketcan: false, vector: true };
    let found = DetectedAdapters {
        slcan: vec![],
        socketcan: vec!["can0".to_string()],
        pcan: vec![("PCAN_USBBUS1".to_string(), 0x51)],
        vector: vec![(1, "VN1610".to_string(), "CANpiggy".to_string())],
    };
    let r = collect_report(found, windows);
    assert!(r.socketcan.is_empty());
    assert_eq!(r.pcan[0].channel_byte, "0x51");
    assert_eq!(r.vector[0].channel, "1");
    assert_eq!(r.vector[0].name, "VN1610");
}
