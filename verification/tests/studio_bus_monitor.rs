use can_flasher::cli::replay::{format_candump_line, parse_candump_line};
use can_flasher::protocol::CanFrame;
use can_flasher::studio::bus_monitor::{
    arm_requires_running, capture_channel, capture_line, capture_requires_running,
    monitor_arm_frames, monitor_stopped_message, poll_timeout_ms, recv_failure_action,
    BusMonitorFrame, ProgressGate, RecvFailureAction,
};

#[test]
fn poll_timeout_has_a_floor() {
    assert_eq!(poll_timeout_ms(0), 20);
    assert_eq!(poll_timeout_ms(19), 20);
    assert_eq!(poll_timeout_ms(20), 20);
    assert_eq!(poll_timeout_ms(50), 50);
}

#[test]
fn capture_channel_defaults_to_can0() {
    assert_eq!(capture_channel(None), "can0");
    assert_eq!(capture_channel(Some("")), "can0");
    assert_eq!(capture_channel(Some("vcan1")), "vcan1");
}

#[test]
fn capture_line_is_candump_format() {
    let f = CanFrame::new(0x1A3, &[0xDE, 0xAD, 0xBE, 0xEF]).unwrap();
    assert_eq!(capture_line("can0", 1_234_567_890, 123_456, &f), "(1234567890.123456) can0 1A3#DEADBEEF\n");
    let g = CanFrame::new(0x7, &[]).unwrap();
    assert_eq!(capture_line("vcan0", 5, 42, &g), "(5.000042) vcan0 007#\n");
    let ev = BusMonitorFrame::from_frame(99, &f);
    assert_eq!(ev.ts_ms, 99);
    assert_eq!(ev.id, 0x1A3);
    assert_eq!(ev.dlc, 4);
    assert_eq!(ev.data, [0xDE, 0xAD, 0xBE, 0xEF, 0, 0, 0, 0]);
}

#[test]
fn progress_gate_every_100_frames_or_500ms() {
    let mut g = ProgressGate::new();
    for _ in 0..99 {
        assert!(!g.record(10));
    }
    assert!(g.record(10));
    assert_eq!(g.since_last, 0);
    assert!(!g.record(499));
    assert!(g.record(500));
    assert_eq!(g.since_last, 0);
}

#[test]
fn recv_failures_classified() {
    assert_eq!(recv_failure_action(true, "whatever"), RecvFailureAction::Disconnected);
    assert_eq!(recv_failure_action(false, "timed out after 50ms"), RecvFailureAction::KeepPolling);
    assert_eq!(
        recv_failure_action(false, "bus-off"),
        RecvFailureAction::Stop { message: "bus-off".into() }
    );
}

#[test]
fn monitor_arms_both_boards() {
    let v = monitor_arm_frames(true);
    assert_eq!(v.len(), 2);
    assert_eq!(v[0].id, 0x7F0);
    assert_eq!(v[1].id, 0x7E0);
    assert_eq!(&v[1].data[..v[1].len as usize], &[0xDE, 0xAD, 0xBE, 0xEF]);
    assert_eq!(arm_requires_running(false).unwrap_err(), "start the bus monitor before arming pit-diag");
    assert!(arm_requires_running(true).is_ok());
    assert_eq!(monitor_stopped_message(), "bus monitor stopped — restart it and try again");
    assert_eq!(capture_requires_running(false).unwrap_err(), "monitor is not running — start it first");
}

#[test]
fn capture_lines_replay_back() {
    let f = CanFrame::new(0x7FF, &[1, 2, 0xAB]).unwrap();
    let captured = capture_line("can0", 10, 5, &f);
    assert_eq!(captured, format!("{}\n", format_candump_line(&f, "can0", 10, 5)));
    let parsed = parse_candump_line(captured.trim_end()).unwrap();
    assert_eq!(parsed.timestamp, "10.000005");
    assert_eq!(parsed.interface, "can0");
    assert_eq!(parsed.id, 0x7FF);
    assert_eq!(parsed.len, 3);
    assert_eq!(&parsed.data[..3], &[1, 2, 0xAB]);
}
