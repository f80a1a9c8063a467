#![allow(unused_imports)]
use can_flasher::protocol::CanFrame;
use can_flasher::pit_diag::udv::{UDV_ARM_ID, UDV_ARM_ENABLE_PAYLOAD, UDV_STATUS_ID, UDV_RES_ID, UDV_PIPE_ID, UDV_HEALTH_ID, UDV_FWINFO_ID, UDV_CANHEALTH_ID, UDV_CALIB_ID, UDV_CALIB_TRIGGER_ID, UDV_CALIB_START, UDV_CALIB_ABORT, UDV_EXPECTED_FRAMES_PER_SCAN, UDV_AGE_NEVER, UdvAsState, UdvEbsInit, UdvAssi, UdvResStatus, UdvSteerMotor, UdvStatusFrame, UdvResFrame, UdvPipeFrame, UdvHealthFrame, UdvFwInfoFrame, UdvCanHealthFrame, UdvCalibFrame, UdvPitDiagFrame, calib_phase_name, calib_error_name, build_arm_frame, build_calib_trigger, decode_frame};

#[test]
fn udv_status_decodes() {
        // as=2 (Driving), signals=0x0203 (b0 ASMS, b1 TS, b9 finished),
        // mission=3, ebs=8 (Done), stub=0x01 (EBS), assi=2, armed=1.
        let p = [2, 0x03, 0x02, 3, 8, 0x01, 2, 1];
        let f = CanFrame::new(UDV_STATUS_ID, &p).unwrap();
        match decode_frame(&f).unwrap() {
            UdvPitDiagFrame::Status(s) => {
                assert_eq!(s.as_state, UdvAsState::Driving);
                assert_eq!(s.signals, 0x0203);
                assert_eq!(s.mission_id, 3);
                assert_eq!(s.ebs_init, UdvEbsInit::Done);
                assert_eq!(s.stub_mask, 0x01);
                assert_eq!(s.assi, UdvAssi::Driving);
                assert!(s.diag_armed);
            }
            other => panic!("expected Status, got {other:?}"),
        }
    }

#[test]
fn res_decodes_signed_fields() {
        // status=-1 (Timeout), steer=-1 (Emergency), age=0xFFFF (never).
        let p = [0x22, 0xFF, 0x40, 88, 0xFF, 0xFF, 0xFF, 0x07];
        let f = CanFrame::new(UDV_RES_ID, &p).unwrap();
        match decode_frame(&f).unwrap() {
            UdvPitDiagFrame::Res(r) => {
                assert_eq!(r.raw_0x191, 0x22);
                assert_eq!(r.res_status, UdvResStatus::Timeout);
                assert_eq!(r.bits, 0x40);
                assert_eq!(r.res_age_ms, UDV_AGE_NEVER);
                assert_eq!(r.steer_motor, UdvSteerMotor::Emergency);
            }
            other => panic!("expected Res, got {other:?}"),
        }
    }

#[test]
fn pipe_and_health_decode() {
        let p = [1, 0x2C, 0x01, 100i8 as u8, (-50i8) as u8, 0x10, 0x00, 0x0F];
        match decode_frame(&CanFrame::new(UDV_PIPE_ID, &p).unwrap()).unwrap() {
            UdvPitDiagFrame::Pipe(pi) => {
                assert_eq!(pi.dv_age_ms, 300);
                assert_eq!(pi.accel_cmd_pct, 100);
                assert_eq!(pi.steer_cmd, -50);
                assert_eq!(pi.ctrl_age_ms, 16);
                assert_eq!(pi.setup_bits, 0x0F);
            }
            other => panic!("expected Pipe, got {other:?}"),
        }
        let h = [0x00, 0x04, 0x00, 0x02, 0x05, 0x02, 0xFF, 42];
        match decode_frame(&CanFrame::new(UDV_HEALTH_ID, &h).unwrap()).unwrap() {
            UdvPitDiagFrame::Health(he) => {
                assert_eq!(he.free_heap_words, 1024);
                assert_eq!(he.min_free_heap_words, 512);
                assert_eq!(he.task_mask, 0x05);
                assert_eq!(he.flags, 0x02);
                assert_eq!(he.stalled_task, -1);
                assert_eq!(he.uptime_s, 42);
            }
            other => panic!("expected Health, got {other:?}"),
        }
    }

#[test]
fn arm_frame_is_deadbeef() {
        let f = build_arm_frame();
        assert_eq!(f.id, UDV_ARM_ID);
        assert_eq!(f.payload(), &[0xDE, 0xAD, 0xBE, 0xEF]);
    }

#[test]
fn canhealth_decodes() {
        // flags=0x03 (BusOff+ErrPassive), LEC=3 (ACK), TEC=200, REC=64,
        // res_rx=0x0102 LE, nmt=5, ack_error=1.
        let p = [0x03, 3, 200, 64, 0x02, 0x01, 5, 1];
        match decode_frame(&CanFrame::new(UDV_CANHEALTH_ID, &p).unwrap()).unwrap() {
            UdvPitDiagFrame::CanHealth(c) => {
                assert_eq!(c.flags, 0x03);
                assert_eq!(c.last_error_code, 3);
                assert_eq!(c.tx_err_count, 200);
                assert_eq!(c.rx_err_count, 64);
                assert_eq!(c.res_rx_count, 0x0102);
                assert_eq!(c.nmt_count, 5);
                assert!(c.ack_error);
            }
            other => panic!("expected CanHealth, got {other:?}"),
        }
    }

#[test]
fn calib_decodes_signed_angles() {
        // phase=9 (OK), error=0, center=+123, half_range=+2000, limit=-50 (all ddeg LE).
        let p = [9, 0, 0x7B, 0x00, 0xD0, 0x07, 0xCE, 0xFF];
        match decode_frame(&CanFrame::new(UDV_CALIB_ID, &p).unwrap()).unwrap() {
            UdvPitDiagFrame::Calib(c) => {
                assert_eq!(c.phase, 9);
                assert_eq!(calib_phase_name(c.phase), "OK");
                assert_eq!(calib_error_name(c.error), "none");
                assert_eq!(c.center_ddeg, 123);
                assert_eq!(c.half_range_ddeg, 2000);
                assert_eq!(c.limit_ddeg, -50);
            }
            other => panic!("expected Calib, got {other:?}"),
        }
    }

#[test]
fn calib_trigger_start_and_abort() {
        assert_eq!(build_calib_trigger(true).payload(), &[0x01]);
        assert_eq!(build_calib_trigger(false).payload(), &[0x02]);
        assert_eq!(build_calib_trigger(true).id, UDV_CALIB_TRIGGER_ID);
    }

#[test]
fn udv_unrelated_id_returns_none() {
        assert!(decode_frame(&CanFrame::new(0x700, &[0; 8]).unwrap()).is_none());
    }
