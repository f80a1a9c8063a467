#![allow(unused_imports)]
use can_flasher::protocol::CanFrame;
use can_flasher::pit_diag::ecu::{ECU_ARM_ID, ECU_ACK_ID, ECU_ARM_ENABLE_PAYLOAD, ECU_ARM_DISABLE_PAYLOAD, ECU_STATUS_ID, ECU_PEDALS_ID, ECU_INVERTER_ID, ECU_FWINFO_ID, ECU_BRAKE_ID, ECU_INVERTER_TEMPS_ID, ECU_HEALTH_ID, ECU_DV_ID, ECU_INV_TEMP_DISCONNECTED_C, ECU_EXPECTED_FRAMES_PER_SCAN, EcuFsmState, EcuInvState, EcuResetCause, dem_fault_name, EcuStatusFrame, EcuPedalsFrame, EcuBrakeFrame, EcuInverterFrame, EcuFwInfoFrame, EcuInverterTempsFrame, EcuHealthFrame, EcuDvFrame, EcuPitDiagFrame, build_arm_frame, decode_frame};

#[test]
fn arm_frame_round_trip() {
        let on = build_arm_frame(true);
        assert_eq!(on.id, ECU_ARM_ID);
        assert_eq!(on.payload(), &[0xDE, 0xAD, 0xBE, 0xEF]);
        let off = build_arm_frame(false);
        assert_eq!(off.payload(), &[0x00, 0x00, 0x00, 0x00]);
    }

#[test]
fn ack_decodes() {
        let on = CanFrame::new(ECU_ACK_ID, &[0x01]).unwrap();
        assert_eq!(
            decode_frame(&on),
            Some(EcuPitDiagFrame::Ack { enabled: true })
        );
        let off = CanFrame::new(ECU_ACK_ID, &[0x00]).unwrap();
        assert_eq!(
            decode_frame(&off),
            Some(EcuPitDiagFrame::Ack { enabled: false })
        );
    }

#[test]
fn ecu_status_decodes() {
        // fsm=5 (Active), inv=4 (Ready), flags=0b10101 (ev_2_3 +
        // rtds_active + start_button), torque=42%, v_cell_min=3500mV,
        // torque_cmd=-300.
        let p = [
            0x05,
            0x04,
            0b0001_0101,
            42,
            0x0D,
            0xAC, // 3500
            0xFE,
            0xD4, // -300 as i16 BE
        ];
        let frame = CanFrame::new(ECU_STATUS_ID, &p).unwrap();
        match decode_frame(&frame).unwrap() {
            EcuPitDiagFrame::Status(s) => {
                assert_eq!(s.fsm_state, EcuFsmState::Active);
                assert_eq!(s.inv_state, EcuInvState::Ready);
                assert!(s.ev_2_3 && s.rtds_active && s.start_button);
                assert!(!s.t11_8_9 && !s.ok_precharge);
                assert_eq!(s.torque_pct, 42);
                assert_eq!(s.v_cell_min_mv, 3500);
                assert_eq!(s.torque_cmd, -300);
            }
            other => panic!("expected Status, got {other:?}"),
        }
    }

#[test]
fn pedals_decode() {
        // apps1=0x0102, apps2=0x0304, brake=0x0506, apps1%=10, apps2%=11.
        let p = [0x01, 0x02, 0x03, 0x04, 0x05, 0x06, 10, 11];
        let frame = CanFrame::new(ECU_PEDALS_ID, &p).unwrap();
        match decode_frame(&frame).unwrap() {
            EcuPitDiagFrame::Pedals(ped) => {
                assert_eq!(ped.apps1_raw, 0x0102);
                assert_eq!(ped.apps2_raw, 0x0304);
                assert_eq!(ped.brake_raw, 0x0506);
                assert_eq!(ped.apps1_pct, 10);
                assert_eq!(ped.apps2_pct, 11);
            }
            other => panic!("expected Pedals, got {other:?}"),
        }
    }

#[test]
fn brake_decodes() {
        // 123 deci-bar = 12.3 bar, 55%.
        let frame = CanFrame::new(ECU_BRAKE_ID, &[0x00, 123, 55]).unwrap();
        match decode_frame(&frame).unwrap() {
            EcuPitDiagFrame::Brake(b) => {
                assert_eq!(b.brake_pressure_dbar, 123);
                assert_eq!(b.brake_pct, 55);
            }
            other => panic!("expected Brake, got {other:?}"),
        }
    }

#[test]
fn inverter_decodes_signed_rpm() {
        // dc_bus=0x0258 (600V), rpm=-1000 (BE i32), err=0x07. 7-byte frame:
        // no dem_present byte -> latched (false).
        let rpm = (-1000i32).to_be_bytes();
        let p = [0x02, 0x58, rpm[0], rpm[1], rpm[2], rpm[3], 0x07];
        let frame = CanFrame::new(ECU_INVERTER_ID, &p).unwrap();
        match decode_frame(&frame).unwrap() {
            EcuPitDiagFrame::Inverter(inv) => {
                assert_eq!(inv.dc_bus_voltage, 600);
                assert_eq!(inv.inv_rpm, -1000);
                assert_eq!(inv.inv_error, 0x07);
                assert_eq!(dem_fault_name(inv.inv_error), "CAN1_BusOff");
                assert!(!inv.dem_present);
            }
            other => panic!("expected Inverter, got {other:?}"),
        }
    }

#[test]
fn inverter_decodes_dem_present_and_names() {
        // 8-byte frame: err=2 (Undervoltage), byte7 bit0 set -> active now.
        let p = [0, 0, 0, 0, 0, 0, 2, 0x01];
        match decode_frame(&CanFrame::new(ECU_INVERTER_ID, &p).unwrap()).unwrap() {
            EcuPitDiagFrame::Inverter(inv) => {
                assert_eq!(inv.inv_error, 2);
                assert_eq!(dem_fault_name(inv.inv_error), "Undervoltage");
                assert!(inv.dem_present);
            }
            other => panic!("expected Inverter, got {other:?}"),
        }
        assert_eq!(dem_fault_name(15), "EmachineOverspeed");
        assert_eq!(dem_fault_name(200), "unknown");
    }

#[test]
fn fwinfo_decodes() {
        let p = [1, 6, 2, 0xAB, 0xCD, 0xEF, 0x01];
        let frame = CanFrame::new(ECU_FWINFO_ID, &p).unwrap();
        match decode_frame(&frame).unwrap() {
            EcuPitDiagFrame::FwInfo(fw) => {
                assert_eq!((fw.fw_major, fw.fw_minor, fw.fw_patch), (1, 6, 2));
                assert_eq!(fw.git_hash, [0xAB, 0xCD, 0xEF, 0x01]);
            }
            other => panic!("expected FwInfo, got {other:?}"),
        }
    }

#[test]
fn inverter_temps_decode_offset_and_sentinel() {
        // board=25 (raw 75), pwrstg=60 (raw 110), motor1=-10 (raw 40),
        // motor2=disconnected (raw 0xFF => 205).
        let frame = CanFrame::new(ECU_INVERTER_TEMPS_ID, &[75, 110, 40, 0xFF]).unwrap();
        match decode_frame(&frame).unwrap() {
            EcuPitDiagFrame::InverterTemps(t) => {
                assert_eq!(t.board_degc, 25);
                assert_eq!(t.pwrstg_degc, 60);
                assert_eq!(t.motor1_degc, -10);
                assert_eq!(t.motor2_degc, ECU_INV_TEMP_DISCONNECTED_C);
            }
            other => panic!("expected InverterTemps, got {other:?}"),
        }
    }

#[test]
fn health_decodes() {
        // free=0x1234, min=0x0800, live=0b1011 (control+can_rx+diag, not
        // can_tx), reset=4 (IWDG), uptime=42, last_fault=0xF5 (stack overflow).
        let p = [0x12, 0x34, 0x08, 0x00, 0b1011, 4, 42, 0xF5];
        let frame = CanFrame::new(ECU_HEALTH_ID, &p).unwrap();
        match decode_frame(&frame).unwrap() {
            EcuPitDiagFrame::Health(h) => {
                assert_eq!(h.free_heap, 0x1234);
                assert_eq!(h.min_free_heap, 0x0800);
                assert!(h.task_control && h.task_can_rx && h.task_diag);
                assert!(!h.task_can_tx);
                assert_eq!(h.reset_cause, EcuResetCause::Iwdg);
                assert_eq!(h.uptime_s, 42);
                assert_eq!(h.last_fault, 0xF5);
            }
            other => panic!("expected Health, got {other:?}"),
        }
    }

#[test]
fn status_carries_dv_mode() {
        // byte2 = 0x30 → bit4 start_button + bit5 dv_mode (#109); rtds clear.
        let p = [5, 4, 0x30, 60, 0xAC, 0x00, 0x00, 0x00];
        let frame = CanFrame::new(ECU_STATUS_ID, &p).unwrap();
        match decode_frame(&frame).unwrap() {
            EcuPitDiagFrame::Status(s) => {
                assert!(s.dv_mode);
                assert!(s.start_button);
                assert!(!s.rtds_active);
            }
            other => panic!("expected Status, got {other:?}"),
        }
    }

#[test]
fn dv_frame_decodes() {
        // byte0 flags = bits 0,1,4 (r2d_req + cmd_fresh + r2d_confirm);
        // ts_active/brake_over_limit clear. torque 80%, rpm 1500 (LE).
        let p = [0b0001_0011u8, 80, 0xDC, 0x05, 0, 0, 0, 0];
        let frame = CanFrame::new(ECU_DV_ID, &p).unwrap();
        match decode_frame(&frame).unwrap() {
            EcuPitDiagFrame::Dv(d) => {
                assert!(d.dv_r2d_req && d.dv_cmd_fresh && d.r2d_confirm);
                assert!(!d.ts_active && !d.brake_over_limit);
                assert_eq!(d.dv_torque_pct, 80);
                assert_eq!(d.motor_rpm_mech, 1500);
            }
            other => panic!("expected Dv, got {other:?}"),
        }
    }

#[test]
fn unknown_enum_values_pass_through() {
        let p = [0xFF, 0x09, 0, 0, 0, 0, 0, 0];
        let frame = CanFrame::new(ECU_STATUS_ID, &p).unwrap();
        match decode_frame(&frame).unwrap() {
            EcuPitDiagFrame::Status(s) => {
                assert_eq!(s.fsm_state, EcuFsmState::Unknown(0xFF));
                assert_eq!(s.inv_state, EcuInvState::Unknown(0x09));
            }
            other => panic!("expected Status, got {other:?}"),
        }
    }

#[test]
fn short_frames_and_foreign_ids_reject() {
        // Short status.
        assert_eq!(
            decode_frame(&CanFrame::new(ECU_STATUS_ID, &[0, 1, 2]).unwrap()),
            None
        );
        // Short inverter (needs 7).
        assert_eq!(
            decode_frame(&CanFrame::new(ECU_INVERTER_ID, &[0; 6]).unwrap()),
            None
        );
        // Foreign ID (an AMS cell-V frame) is not ours.
        assert_eq!(decode_frame(&CanFrame::new(0x680, &[0; 8]).unwrap()), None);
    }

#[test]
fn dem_fault_names_are_distinct() {
    for a in 0u8..=15 {
        assert_ne!(dem_fault_name(a), "unknown");
        for b in 0u8..=15 {
            if a != b {
                assert_ne!(dem_fault_name(a), dem_fault_name(b));
            }
        }
    }
    assert_eq!(dem_fault_name(200), "unknown");
    assert_eq!(dem_fault_name(15), "EmachineOverspeed");
}
