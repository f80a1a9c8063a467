use can_flasher::cli::pit_diag_lines::{ecu_human, ecu_json, record_human, record_json, udv_human, udv_json};
use can_flasher::pit_diag::ecu::{
    EcuBrakeFrame, EcuFsmState, EcuHealthFrame, EcuInvState, EcuPitDiagFrame, EcuResetCause,
    EcuStatusFrame,
};
use can_flasher::pit_diag::udv::{
    UdvAsState, UdvAssi, UdvCalibFrame, UdvEbsInit, UdvPitDiagFrame, UdvResFrame, UdvResStatus,
    UdvSteerMotor, UdvStatusFrame,
};
use can_flasher::pit_diag::{
    CellVoltageFrame, FaultReason, FsmState, FsmStatusFrame, ModeLock, NtcTempFrame, PerIcPecFrame,
    PitDiagFrame, PostMortemFrame,
};

fn prefix(ts_ms: u64) -> String {
    format!("[+{:>7.3}s]", (ts_ms as f64) / 1000.0)
}

#[test]
fn human_prefix_matches_float_formatting() {
    for ts in [0u64, 7, 999, 1000, 12_345, 1_234_567, 98_765_432] {
        let line = record_human(ts, &PitDiagFrame::Ack { enabled: true });
        assert!(line.to_stderr);
        assert_eq!(line.text, format!("{} ack enabled=true", prefix(ts)));
    }
}

#[test]
fn cell_line_pads_columns() {
    let c = CellVoltageFrame { frame_idx: 3, first_cell: 12, voltages_mv: [3700, 3701, 999, 4200] };
    let line = record_human(1500, &PitDiagFrame::CellVoltage(c));
    assert!(!line.to_stderr);
    assert_eq!(line.text, "[+  1.500s] cell  frame= 3 cells[12..16] = 3700 3701  999 4200 mV");
    assert_eq!(
        record_json(1500, &PitDiagFrame::CellVoltage(c)),
        r#"{"tsMs":1500,"kind":"cellVoltage","frameIdx":3,"firstCell":12,"voltagesMv":[3700,3701,999,4200]}"#
    );
}

#[test]
fn ntc_line_renders_signed_temperatures() {
    let t = NtcTempFrame { frame_idx: 1, first_ntc: 8, temps_c: [25, -5, 0, 127, -128, 1, 2, 3] };
    let line = record_human(0, &PitDiagFrame::NtcTemp(t));
    assert_eq!(line.text, "[+  0.000s] ntc   frame= 1 ntcs[  8.. 16] =   25   -5    0  127 -128    1    2    3 °C");
    assert_eq!(
        record_json(0, &PitDiagFrame::NtcTemp(t)),
        r#"{"tsMs":0,"kind":"ntcTemp","frameIdx":1,"firstNtc":8,"tempsC":[25,-5,0,127,-128,1,2,3]}"#
    );
}

#[test]
fn fsm_line_shows_fault_only_when_latched() {
    let mut f = FsmStatusFrame {
        state: FsmState::Run,
        mode_locked: ModeLock::Car,
        tsms: true,
        dash_chg: false,
        ams_ok: true,
        pec_error_total: 12,
        fault_reason: FaultReason::NoFault,
        fault_detail: 0,
    };
    assert_eq!(
        record_human(2000, &PitDiagFrame::FsmStatus(f)).text,
        "[+  2.000s] fsm   state=Run mode=Car tsms=1 dash=0 ams_ok=1 pec=12"
    );
    assert_eq!(
        record_json(2000, &PitDiagFrame::FsmStatus(f)),
        r#"{"tsMs":2000,"kind":"fsmStatus","state":"Run","modeLocked":"Car","tsms":true,"dashChg":false,"amsOk":true,"pecErrorTotal":12,"faultReason":"None","faultDetail":0}"#
    );
    f.state = FsmState::Unknown(9);
    f.fault_reason = FaultReason::CellOverTemp;
    f.fault_detail = 42;
    assert_eq!(
        record_human(2000, &PitDiagFrame::FsmStatus(f)).text,
        "[+  2.000s] fsm   state=Unknown(9) mode=Car tsms=1 dash=0 ams_ok=1 pec=12 fault=CellOverTemp detail=42"
    );
}

#[test]
fn post_mortem_clean_and_dirty_lines() {
    let clean = PostMortemFrame { stack_overflow_seen: false, watermark_low_byte: 7, task_addr_lo: 0, malloc_failed_count: 0 };
    assert_eq!(
        record_human(10, &PitDiagFrame::PostMortem(clean)).text,
        "[+  0.010s] crash (clean — no fault on previous boot)"
    );
    let dirty = PostMortemFrame { stack_overflow_seen: true, watermark_low_byte: 7, task_addr_lo: 0xBEEF, malloc_failed_count: 2 };
    assert_eq!(
        record_human(10, &PitDiagFrame::PostMortem(dirty)).text,
        "[+  0.010s] crash stack_overflow=1 watermark=7 task_addr=0x0000BEEF malloc_fails=2"
    );
}

#[test]
fn pec_line_lists_only_valid_counts() {
    let p = PerIcPecFrame { first_ic: 8, counts: [1, 2, 3, 4, 5, 6, 7, 8], valid: 2 };
    assert_eq!(record_human(0, &PitDiagFrame::PerIcPec(p)).text, "[+  0.000s] pec   ICs[ 8..10] =   1   2");
    assert_eq!(
        record_json(0, &PitDiagFrame::PerIcPec(p)),
        r#"{"tsMs":0,"kind":"perIcPec","firstIc":8,"valid":2,"counts":[1,2]}"#
    );
}

#[test]
fn ecu_lines() {
    let s = EcuStatusFrame {
        fsm_state: EcuFsmState::Active,
        inv_state: EcuInvState::Unknown(7),
        ev_2_3: true,
        t11_8_9: false,
        rtds_active: true,
        ok_precharge: true,
        start_button: false,
        dv_mode: false,
        torque_pct: 55,
        v_cell_min_mv: 3300,
        torque_cmd: -120,
    };
    assert_eq!(
        ecu_human(3_210, &EcuPitDiagFrame::Status(s)).text,
        "[+  3.210s] status fsm=Active inv=Unknown(7) torque=55% vcell_min=3300mV tcmd=-120 [ev23=1 t11=0 rtds=1 preok=1 start=0 dv=0]"
    );
    assert_eq!(
        ecu_json(3_210, &EcuPitDiagFrame::Status(s)),
        r#"{"tsMs":3210,"kind":"ecuStatus","fsmState":"Active","invState":"Unknown(7)","ev23":true,"t11_8_9":false,"rtdsActive":true,"okPrecharge":true,"startButton":false,"dvMode":false,"torquePct":55,"vCellMinMv":3300,"torqueCmd":-120}"#
    );
    for dbar in [0u16, 3, 57, 1234, 65535] {
        let b = EcuBrakeFrame { brake_pressure_dbar: dbar, brake_pct: 40 };
        assert_eq!(
            ecu_human(0, &EcuPitDiagFrame::Brake(b)).text,
            format!("{} brake {:.1}bar (40%)", prefix(0), f64::from(dbar) * 0.1)
        );
    }
    let h = EcuHealthFrame {
        free_heap: 1000,
        min_free_heap: 800,
        task_control: true,
        task_can_rx: true,
        task_can_tx: false,
        task_diag: true,
        reset_cause: EcuResetCause::Other(9),
        uptime_s: 77,
        last_fault: 0xF3,
    };
    assert_eq!(
        ecu_human(0, &EcuPitDiagFrame::Health(h)).text,
        "[+  0.000s] health heap=1000/800 tasks[ctrl=1 rx=1 tx=0 diag=1] reset=Other(9) uptime=77s last_fault=0xF3"
    );
    let ack = ecu_human(5, &EcuPitDiagFrame::Ack { enabled: false });
    assert!(ack.to_stderr);
    assert_eq!(ack.text, "[+  0.005s] ack enabled=false");
}

#[test]
fn udv_lines() {
    let s = UdvStatusFrame {
        as_state: UdvAsState::Driving,
        signals: 0x2A,
        mission_id: -1,
        ebs_init: UdvEbsInit::CheckAct1,
        stub_mask: 3,
        assi: UdvAssi::Other(9),
        diag_armed: true,
    };
    assert_eq!(
        udv_human(0, &UdvPitDiagFrame::Status(s)),
        "[+  0.000s] status as=Driving sig=0x002A mission=-1 ebs=CheckAct1 assi=Other(9) armed=1"
    );
    assert_eq!(
        udv_json(0, &UdvPitDiagFrame::Status(s)),
        r#"{"tsMs":0,"kind":"udvStatus","asState":"Driving","signals":42,"missionId":-1,"ebsInit":"CheckAct1","stubMask":3,"assi":"Other(9)","diagArmed":true}"#
    );
    let r = UdvResFrame {
        raw_0x191: 0x81,
        res_status: UdvResStatus::NoStatus,
        bits: 5,
        radio_quality: 90,
        res_age_ms: 65535,
        steer_motor: UdvSteerMotor::Other(-7),
        lws_status: 1,
    };
    assert_eq!(
        udv_human(0, &UdvPitDiagFrame::Res(r)),
        "[+  0.000s] res    status=None bits=0x05 radio=90 age=65535ms steer=Other(-7) raw191=0x81"
    );
    let c = UdvCalibFrame { phase: 9, error: 0, center_ddeg: -3, half_range_ddeg: 1234, limit_ddeg: -1501 };
    assert_eq!(
        udv_human(0, &UdvPitDiagFrame::Calib(c)),
        format!(
            "{} calib  phase=9 (OK) error=0 (none) center={:.1}° half={:.1}° limit={:.1}°",
            prefix(0),
            f64::from(-3i16) * 0.1,
            f64::from(1234i16) * 0.1,
            f64::from(-1501i16) * 0.1
        )
    );
}

fn is_one_object_line(s: &str) -> bool {
    s.starts_with('{') && s.ends_with('}') && !s.contains('\n') && !s.contains('\r')
}

#[test]
fn json_lines_are_single_objects() {
    let ams = [
        PitDiagFrame::Ack { enabled: false },
        PitDiagFrame::CellVoltage(CellVoltageFrame { frame_idx: 0, first_cell: 0, voltages_mv: [0, 1, 2, 65535] }),
        PitDiagFrame::NtcTemp(NtcTempFrame { frame_idx: 2, first_ntc: 16, temps_c: [-128, 127, 0, 1, 2, 3, 4, 5] }),
        PitDiagFrame::PerIcPec(PerIcPecFrame { first_ic: 0, counts: [9; 8], valid: 0 }),
    ];
    for f in ams.iter() {
        assert!(is_one_object_line(&record_json(u64::MAX, f)));
    }
    let ecu = EcuStatusFrame {
        fsm_state: EcuFsmState::Unknown(200),
        inv_state: EcuInvState::Standby,
        ev_2_3: false,
        t11_8_9: true,
        rtds_active: false,
        ok_precharge: false,
        start_button: true,
        dv_mode: true,
        torque_pct: 0,
        v_cell_min_mv: 0,
        torque_cmd: i16::MIN,
    };
    assert!(is_one_object_line(&ecu_json(3, &EcuPitDiagFrame::Status(ecu))));
    assert!(is_one_object_line(&ecu_json(3, &EcuPitDiagFrame::Ack { enabled: true })));
    let udv = UdvResFrame {
        raw_0x191: 0,
        res_status: UdvResStatus::Other(-128),
        bits: 0,
        radio_quality: 0,
        res_age_ms: 0,
        steer_motor: UdvSteerMotor::Emergency,
        lws_status: 0,
    };
    assert!(is_one_object_line(&udv_json(0, &UdvPitDiagFrame::Res(udv))));
}
