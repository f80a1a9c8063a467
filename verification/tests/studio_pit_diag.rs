use can_flasher::pit_diag::ecu::{EcuHealthFrame, EcuPitDiagFrame, EcuResetCause};
use can_flasher::pit_diag::udv::{UdvCalibFrame, UdvPitDiagFrame, UdvResFrame, UdvResStatus, UdvSteerMotor};
use can_flasher::pit_diag::{
    BalanceMaskAFrame, FaultReason, FsmState, FsmStatusFrame, JumpReason, BootDiagFrame, ModeLock,
    PitDiagFrame, PostMortemFrame,
};
use can_flasher::protocol::CanFrame;
use can_flasher::studio::pit_diag::{
    ack_seen, ack_wait_deadline, ack_wait_error, ack_wait_step, AckWaitEvent, ack_wait_result, calibrate_check, default_profile, disarm_frames,
    PitDiagEvent, Profile,
};

fn frame(id: u16, payload: &[u8]) -> CanFrame {
    CanFrame::new(id, payload).unwrap()
}

#[test]
fn profile_parse_accepts_the_four_profiles() {
    assert_eq!(Profile::parse("ams").unwrap(), Profile::Ams);
    assert_eq!(Profile::parse("ecu").unwrap(), Profile::Ecu);
    assert_eq!(Profile::parse("udv").unwrap(), Profile::Udv);
    assert_eq!(Profile::parse("all").unwrap(), Profile::All);
    assert_eq!(
        Profile::parse("vcu").unwrap_err(),
        "pit-diag is not implemented for profile 'vcu' yet"
    );
    assert_eq!(default_profile(), "ams");
}

#[test]
fn ack_ids_only_for_single_acking_boards() {
    assert_eq!(Profile::Ams.ack_id(), Some(0x7F1));
    assert_eq!(Profile::Ecu.ack_id(), Some(0x7E1));
    assert_eq!(Profile::Udv.ack_id(), None);
    assert_eq!(Profile::All.ack_id(), None);
}

#[test]
fn arm_frames_per_profile() {
    let ids = |v: Vec<CanFrame>| v.iter().map(|f| f.id).collect::<Vec<_>>();
    assert_eq!(ids(Profile::Ams.arm_frames(true)), vec![0x7F0]);
    assert_eq!(ids(Profile::Ecu.arm_frames(false)), vec![0x7E0]);
    assert_eq!(ids(Profile::Udv.arm_frames(true)), vec![0x7DE]);
    assert!(Profile::Udv.arm_frames(false).is_empty());
    assert_eq!(ids(Profile::All.arm_frames(true)), vec![0x7F0, 0x7E0, 0x7DE]);
    assert_eq!(ids(Profile::All.arm_frames(false)), vec![0x7F0, 0x7E0]);
    let arm = &Profile::Ams.arm_frames(true)[0];
    assert_eq!(&arm.data[..arm.len as usize], &[0xDE, 0xAD, 0xBE, 0xEF]);
    let disarm = &Profile::Ecu.arm_frames(false)[0];
    assert_eq!(&disarm.data[..disarm.len as usize], &[0, 0, 0, 0]);
    assert_eq!(ids(disarm_frames("all")), vec![0x7F0, 0x7E0]);
    assert!(disarm_frames("bogus").is_empty());
}

#[test]
fn decode_event_dispatches_by_profile() {
    let ams_ack = frame(0x7F1, &[1]);
    assert_eq!(Profile::Ams.decode_event(&ams_ack), Some(PitDiagEvent::Ack { enabled: true }));
    assert_eq!(Profile::Ecu.decode_event(&ams_ack), None);
    assert_eq!(Profile::All.decode_event(&ams_ack), Some(PitDiagEvent::Ack { enabled: true }));
    let mask = frame(0x6C2, &u64::MAX.to_le_bytes());
    assert_eq!(
        Profile::All.decode_event(&mask),
        Some(PitDiagEvent::BalanceMaskA { dcc_lo: u64::MAX.to_string() })
    );
    assert_eq!(Profile::Udv.decode_event(&mask), None);
    assert_eq!(Profile::All.decode_event(&frame(0x123, &[1, 2])), None);
}

#[test]
fn ack_seen_only_on_the_ack_id() {
    assert_eq!(ack_seen(Profile::Ams, 0x7F1, &frame(0x7F1, &[1])), Some(true));
    assert_eq!(ack_seen(Profile::Ams, 0x7F1, &frame(0x7F1, &[0])), Some(false));
    assert_eq!(ack_seen(Profile::Ams, 0x7F1, &frame(0x6C2, &[0; 8])), None);
    assert_eq!(ack_seen(Profile::Ecu, 0x7E1, &frame(0x7E1, &[1])), Some(true));
    assert_eq!(ack_wait_error("bus off"), "waiting for ACK: bus off");
    assert!(ack_wait_result(true).is_ok());
    assert_eq!(
        ack_wait_result(false).unwrap_err(),
        "no ACK from the board within 2000ms — is it on the bus, with pit-diag firmware?"
    );
}

#[test]
fn calibrate_needs_an_armed_udv_session() {
    assert!(calibrate_check(Some(Profile::Udv)).is_ok());
    assert_eq!(
        calibrate_check(None).unwrap_err(),
        "no pit-diag session is armed — arm the uDV telemetry first"
    );
    assert_eq!(
        calibrate_check(Some(Profile::All)).unwrap_err(),
        "steering calibration is a uDV action — switch to the uDV profile and arm it"
    );
}

#[test]
fn library_events_name_their_enums_in_camel_case() {
    let f = FsmStatusFrame {
        state: FsmState::Unknown(0x1F),
        mode_locked: ModeLock::Charger,
        tsms: true,
        dash_chg: false,
        ams_ok: true,
        pec_error_total: 3,
        fault_reason: FaultReason::CellUnderVoltage,
        fault_detail: 9,
    };
    assert_eq!(
        PitDiagEvent::from_library(PitDiagFrame::FsmStatus(f)),
        PitDiagEvent::FsmStatus {
            state: "unknown(0x1F)".into(),
            mode_locked: "charger".into(),
            tsms: true,
            dash_chg: false,
            ams_ok: true,
            pec_error_total: 3,
            fault_reason: "cellUnderVoltage".into(),
            fault_detail: 9,
        }
    );
    let b = BootDiagFrame { jump_reason: JumpReason::Unknown(0xCAFE), app_init_progress: 7, fdcan1_start_result: 0 };
    assert_eq!(
        PitDiagEvent::from_library(PitDiagFrame::BootDiag(b)),
        PitDiagEvent::BootDiag { jump_reason: "unknown(0x0000CAFE)".into(), app_init_progress: 7, fdcan1_start_result: 0 }
    );
    let pm = PostMortemFrame { stack_overflow_seen: false, watermark_low_byte: 1, task_addr_lo: 0, malloc_failed_count: 0 };
    match PitDiagEvent::from_library(PitDiagFrame::PostMortem(pm)) {
        PitDiagEvent::PostMortem { clean, .. } => assert!(clean),
        other => panic!("unexpected {other:?}"),
    }
    assert_eq!(
        PitDiagEvent::from_library(PitDiagFrame::BalanceMaskA(BalanceMaskAFrame { dcc_lo: 1 << 60 })),
        PitDiagEvent::BalanceMaskA { dcc_lo: "1152921504606846976".into() }
    );
}

#[test]
fn ecu_and_udv_events() {
    let h = EcuHealthFrame {
        free_heap: 10,
        min_free_heap: 5,
        task_control: true,
        task_can_rx: false,
        task_can_tx: true,
        task_diag: false,
        reset_cause: EcuResetCause::Iwdg,
        uptime_s: 3,
        last_fault: 0xF5,
    };
    match PitDiagEvent::from_ecu(EcuPitDiagFrame::Health(h)) {
        PitDiagEvent::EcuHealth { reset_cause, last_fault_name, last_fault, .. } => {
            assert_eq!(reset_cause, "iwdg");
            assert_eq!(last_fault_name, "stackOverflow");
            assert_eq!(last_fault, 0xF5);
        }
        other => panic!("unexpected {other:?}"),
    }
    let h2 = EcuHealthFrame { reset_cause: EcuResetCause::Other(0x2B), last_fault: 0x42, ..h };
    match PitDiagEvent::from_ecu(EcuPitDiagFrame::Health(h2)) {
        PitDiagEvent::EcuHealth { reset_cause, last_fault_name, .. } => {
            assert_eq!(reset_cause, "other(0x2B)");
            assert_eq!(last_fault_name, "unknown(0x42)");
        }
        other => panic!("unexpected {other:?}"),
    }
    let r = UdvResFrame {
        raw_0x191: 1,
        res_status: UdvResStatus::Okay,
        bits: 2,
        radio_quality: 3,
        res_age_ms: 4,
        steer_motor: UdvSteerMotor::Emergency,
        lws_status: 5,
    };
    match PitDiagEvent::from_udv(UdvPitDiagFrame::Res(r)) {
        PitDiagEvent::UdvRes { res_status, steer_motor, raw191, .. } => {
            assert_eq!(res_status, "Ok");
            assert_eq!(steer_motor, "Emergency");
            assert_eq!(raw191, 1);
        }
        other => panic!("unexpected {other:?}"),
    }
    let c = UdvCalibFrame { phase: 5, error: 6, center_ddeg: 0, half_range_ddeg: 0, limit_ddeg: 0 };
    match PitDiagEvent::from_udv(UdvPitDiagFrame::Calib(c)) {
        PitDiagEvent::UdvCalib { phase_name, error_name, .. } => {
            assert_eq!(phase_name, "sweep");
            assert_eq!(error_name, "divergence");
        }
        other => panic!("unexpected {other:?}"),
    }
}

#[test]
fn ack_wait_steps() {
    let st = ack_wait_step(Profile::Ams, 0x7F1, false, AckWaitEvent::Frame(frame(0x7F1, &[0])));
    assert!(!st.acked_enabled);
    assert_eq!(st.emit, Some(false));
    assert!(st.outcome.is_none());
    let st = ack_wait_step(Profile::Ams, 0x7F1, false, AckWaitEvent::Frame(frame(0x7F1, &[1])));
    assert!(st.acked_enabled);
    assert_eq!(st.emit, Some(true));
    assert_eq!(st.outcome, Some(Ok(())));
    let st = ack_wait_step(Profile::Ams, 0x7F1, true, AckWaitEvent::Frame(frame(0x123, &[1])));
    assert!(st.acked_enabled && st.emit.is_none() && st.outcome.is_none());
    let st = ack_wait_step(Profile::Ams, 0x7F1, false, AckWaitEvent::RecvFailed(String::from("Recv TIMED OUT")));
    assert!(st.outcome.is_none());
    let st = ack_wait_step(Profile::Ams, 0x7F1, false, AckWaitEvent::RecvFailed(String::from("bus off")));
    assert_eq!(st.outcome, Some(Err(String::from("waiting for ACK: bus off"))));
    assert_eq!(ack_wait_deadline(false, 1999), None);
    assert_eq!(ack_wait_deadline(true, 2000), Some(Ok(())));
    assert!(matches!(ack_wait_deadline(false, 2500), Some(Err(_))));
}
