#![allow(unused_imports)]
use can_flasher::protocol::CanFrame;
use can_flasher::pit_diag::{AMS_ARM_ID, AMS_ACK_ID, AMS_ARM_ENABLE_PAYLOAD, AMS_ARM_DISABLE_PAYLOAD, AMS_NUM_MODULES, AMS_CELLS_PER_MODULE, AMS_NUM_CELLS, AMS_NTC_PER_MODULE, AMS_NUM_NTCS, AMS_CELLV_BASE_ID, AMS_CELLV_LAST_ID, AMS_CELLV_NUM_FRAMES, AMS_CELLV_SENTINEL, AMS_NTC_BASE_ID, AMS_NTC_LAST_ID, AMS_NTC_NUM_FRAMES, AMS_DIAG_BASE_ID, AMS_DIAG_LAST_ID, AMS_DIAG_NUM_FRAMES, AMS_FSM_STATUS_ID, AMS_POLL_TIMING_ID, AMS_BALANCE_MASK_A_ID, AMS_BALANCE_MASK_B_ID, AMS_BOOT_DIAG_ID, AMS_POST_MORTEM_ID, AMS_FW_ID_ID, AMS_PER_IC_PEC_LO_ID, AMS_PER_IC_PEC_HI_ID, AMS_NUM_ICS, AMS_EXPECTED_FRAMES_PER_SCAN, CellVoltageFrame, NtcTempFrame, FsmState, ModeLock, FaultReason, FsmStatusFrame, PerIcPecFrame, PollTimingFrame, BalanceState, BalanceMaskAFrame, BalanceMaskBFrame, JumpReason, BootDiagFrame, PostMortemFrame, FwIdFrame, PitDiagFrame, build_arm_frame, decode_frame, is_real_cell_index};

#[test]
fn arm_frame_encodes_correctly() {
        let on = build_arm_frame(true);
        assert_eq!(on.id, AMS_ARM_ID);
        assert_eq!(on.payload(), &[0xDE, 0xAD, 0xBE, 0xEF]);

        let off = build_arm_frame(false);
        assert_eq!(off.id, AMS_ARM_ID);
        assert_eq!(off.payload(), &[0x00, 0x00, 0x00, 0x00]);
    }

#[test]
fn decodes_ack_enabled() {
        let frame = CanFrame::new(AMS_ACK_ID, &[0x01]).unwrap();
        assert_eq!(
            decode_frame(&frame),
            Some(PitDiagFrame::Ack { enabled: true })
        );
    }

#[test]
fn decodes_ack_disabled() {
        let frame = CanFrame::new(AMS_ACK_ID, &[0x00]).unwrap();
        assert_eq!(
            decode_frame(&frame),
            Some(PitDiagFrame::Ack { enabled: false })
        );
    }

#[test]
fn decodes_ack_empty_payload_as_disabled() {
        // Defensive: an empty payload shouldn't panic. Treat absent
        // payload as disabled so flaky bus drops fail closed.
        let frame = CanFrame::new(AMS_ACK_ID, &[]).unwrap();
        assert_eq!(
            decode_frame(&frame),
            Some(PitDiagFrame::Ack { enabled: false })
        );
    }

#[test]
fn decodes_cell_voltage_mid_stream() {
        // Frame 0x685 (idx 5) carries cells 20..=23.
        let frame =
            CanFrame::new(0x685, &[0x0D, 0x48, 0x0D, 0x50, 0x0D, 0x55, 0x0D, 0x60]).unwrap();
        let decoded = decode_frame(&frame).unwrap();
        match decoded {
            PitDiagFrame::CellVoltage(c) => {
                assert_eq!(c.frame_idx, 5);
                assert_eq!(c.first_cell, 20);
                // 0x0D48 = 3400 mV, etc.
                assert_eq!(c.voltages_mv, [3400, 3408, 3413, 3424]);
            }
            other => panic!("expected CellVoltage, got {other:?}"),
        }
    }

#[test]
fn last_cell_voltage_frame_carries_sentinel() {
        // 0x697 is the 24th (last) frame; carries cells 92, 93, 94,
        // sentinel (0xFFFF) for the missing 96th cell.
        let frame = CanFrame::new(
            AMS_CELLV_LAST_ID,
            &[0x0D, 0x48, 0x0D, 0x50, 0x0D, 0x55, 0xFF, 0xFF],
        )
        .unwrap();
        let decoded = decode_frame(&frame).unwrap();
        match decoded {
            PitDiagFrame::CellVoltage(c) => {
                assert_eq!(c.first_cell, 92);
                assert_eq!(c.voltages_mv[3], AMS_CELLV_SENTINEL);
                assert!(is_real_cell_index(c.first_cell + 2));
                assert!(!is_real_cell_index(c.first_cell + 3));
            }
            other => panic!("expected CellVoltage, got {other:?}"),
        }
    }

#[test]
fn decodes_ntc_temperatures_with_signed_mix() {
        // Frame 0x6A2 (idx 2) — NTCs 16..=23. Mix +ve, -ve, INT8_MIN.
        let frame = CanFrame::new(
            0x6A2,
            &[
                25,   // +25 °C
                26,   // +26 °C
                24,   // +24 °C
                0xFE, // -2 °C
                22,   // +22 °C
                21,   // +21 °C
                0x80, // -128 °C (INT8_MIN, sentinel / unwired)
                19,   // +19 °C
            ],
        )
        .unwrap();
        let decoded = decode_frame(&frame).unwrap();
        match decoded {
            PitDiagFrame::NtcTemp(t) => {
                assert_eq!(t.frame_idx, 2);
                assert_eq!(t.first_ntc, 16);
                assert_eq!(t.temps_c, [25, 26, 24, -2, 22, 21, -128, 19]);
            }
            other => panic!("expected NtcTemp, got {other:?}"),
        }
    }

#[test]
fn decodes_fsm_status_run_state() {
        // 0x6C0 — typical in-Run snapshot: state=Run(3), mode=Car(1),
        // TSMS on + DASH_CHG on (cockpit byte 0b11 = 0x03), AMS_OK on,
        // PEC errors = 0x0042.
        let frame = CanFrame::new(
            AMS_FSM_STATUS_ID,
            &[0x03, 0x01, 0x03, 0x01, 0x00, 0x42, 0x00, 0x00],
        )
        .unwrap();
        let decoded = decode_frame(&frame).unwrap();
        match decoded {
            PitDiagFrame::FsmStatus(f) => {
                assert_eq!(f.state, FsmState::Run);
                assert_eq!(f.mode_locked, ModeLock::Car);
                assert!(f.tsms);
                assert!(f.dash_chg);
                assert!(f.ams_ok);
                assert_eq!(f.pec_error_total, 0x0042);
                // Healthy run: bytes 6/7 reserved-zero ⇒ no fault.
                assert_eq!(f.fault_reason, FaultReason::NoFault);
                assert_eq!(f.fault_detail, 0);
            }
            other => panic!("expected FsmStatus, got {other:?}"),
        }
    }

#[test]
fn decodes_fsm_status_charge_state_no_tsms() {
        // Charger plugged in: state=Charge(4), mode=Charger(2),
        // TSMS off (chassis disarmed), DASH_CHG on. PEC = 0.
        let frame = CanFrame::new(
            AMS_FSM_STATUS_ID,
            &[0x04, 0x02, 0x01, 0x01, 0x00, 0x00, 0x00, 0x00],
        )
        .unwrap();
        let decoded = decode_frame(&frame).unwrap();
        match decoded {
            PitDiagFrame::FsmStatus(f) => {
                assert_eq!(f.state, FsmState::Charge);
                assert_eq!(f.mode_locked, ModeLock::Charger);
                assert!(!f.tsms);
                assert!(f.dash_chg);
                assert!(f.ams_ok);
                assert_eq!(f.pec_error_total, 0);
            }
            other => panic!("expected FsmStatus, got {other:?}"),
        }
    }

#[test]
fn decodes_fsm_status_error_state_unknown_mode_byte() {
        // Defensive: a byte outside the documented 0..=2 mode range
        // surfaces as ModeLock::Unknown — slice 2 isn't going to
        // crash on a future firmware that adds a 4th mode.
        let frame = CanFrame::new(
            AMS_FSM_STATUS_ID,
            &[0x05, 0xAA, 0x00, 0x00, 0xFF, 0xFF, 0x00, 0x00],
        )
        .unwrap();
        let decoded = decode_frame(&frame).unwrap();
        match decoded {
            PitDiagFrame::FsmStatus(f) => {
                assert_eq!(f.state, FsmState::Error);
                assert_eq!(f.mode_locked, ModeLock::Unknown(0xAA));
                assert_eq!(f.pec_error_total, 0xFFFF);
            }
            other => panic!("expected FsmStatus, got {other:?}"),
        }
    }

#[test]
fn decodes_poll_timing() {
        // 0x6C1 — last V-poll 12ms, worst V-poll 41ms,
        // T-sweep fail mask = 0xCAFE_BABE (LE on the wire ⇒ bytes
        // BE BA FE CA).
        let frame = CanFrame::new(
            AMS_POLL_TIMING_ID,
            &[0x00, 0x0C, 0x00, 0x29, 0xBE, 0xBA, 0xFE, 0xCA],
        )
        .unwrap();
        let decoded = decode_frame(&frame).unwrap();
        match decoded {
            PitDiagFrame::PollTiming(p) => {
                assert_eq!(p.last_v_poll_ms, 12);
                assert_eq!(p.worst_v_poll_ms, 41);
                assert_eq!(p.t_sweep_fail_mask, 0xCAFE_BABE);
            }
            other => panic!("expected PollTiming, got {other:?}"),
        }
    }

#[test]
fn fsm_status_short_payload_rejected() {
        // 5-byte payload is too short to reach the PEC u16 at bytes
        // 4..5 — decoder should reject rather than index out of
        // bounds. 6 bytes is the minimum that decodes (the reserved
        // tail at 6..7 is don't-care).
        let frame = CanFrame::new(AMS_FSM_STATUS_ID, &[0x00, 0x00, 0x00, 0x00, 0x00]).unwrap();
        assert_eq!(decode_frame(&frame), None);
    }

#[test]
fn decodes_fsm_status_fault_reason_and_detail() {
        // 0x6C0 with the #276 fault bytes populated: latched ERROR
        // on BmsStale (reason=3), offending module index 4 in byte 7.
        let frame = CanFrame::new(
            AMS_FSM_STATUS_ID,
            &[0x05, 0x01, 0x00, 0x00, 0x00, 0x00, 0x03, 0x04],
        )
        .unwrap();
        match decode_frame(&frame).unwrap() {
            PitDiagFrame::FsmStatus(f) => {
                assert_eq!(f.state, FsmState::Error);
                assert_eq!(f.fault_reason, FaultReason::BmsStale);
                assert_eq!(f.fault_detail, 4);
            }
            other => panic!("expected FsmStatus, got {other:?}"),
        }
    }

#[test]
fn fsm_status_unknown_fault_reason_byte() {
        // A reason byte past the documented 0..=12 range surfaces as
        // Unknown rather than silently mapping to None — forward-compat
        // with a firmware that adds a 13th predicate.
        let frame = CanFrame::new(
            AMS_FSM_STATUS_ID,
            &[0x05, 0x00, 0x00, 0x00, 0x00, 0x00, 0x63, 0x00],
        )
        .unwrap();
        match decode_frame(&frame).unwrap() {
            PitDiagFrame::FsmStatus(f) => {
                assert_eq!(f.fault_reason, FaultReason::Unknown(0x63));
            }
            other => panic!("expected FsmStatus, got {other:?}"),
        }
    }

#[test]
fn six_byte_fsm_frame_decodes_with_no_fault() {
        // A 6-byte FSM frame (no bytes 6/7) still decodes — fault
        // fields fall back to None/0 rather than rejecting the frame.
        let frame =
            CanFrame::new(AMS_FSM_STATUS_ID, &[0x03, 0x01, 0x03, 0x01, 0x00, 0x00]).unwrap();
        match decode_frame(&frame).unwrap() {
            PitDiagFrame::FsmStatus(f) => {
                assert_eq!(f.state, FsmState::Run);
                assert_eq!(f.fault_reason, FaultReason::NoFault);
                assert_eq!(f.fault_detail, 0);
            }
            other => panic!("expected FsmStatus, got {other:?}"),
        }
    }

#[test]
fn decodes_per_ic_pec_low_frame() {
        // 0x6C7 — ICs 0..7, one saturating count each.
        let frame = CanFrame::new(AMS_PER_IC_PEC_LO_ID, &[0, 1, 0, 0, 5, 0, 255, 2]).unwrap();
        match decode_frame(&frame).unwrap() {
            PitDiagFrame::PerIcPec(p) => {
                assert_eq!(p.first_ic, 0);
                assert_eq!(p.valid, 8);
                assert_eq!(p.counts, [0, 1, 0, 0, 5, 0, 255, 2]);
            }
            other => panic!("expected PerIcPec, got {other:?}"),
        }
    }

#[test]
fn decodes_per_ic_pec_high_frame() {
        // 0x6C8 — ICs 8..9 in bytes 0..1, bytes 2..7 reserved-zero.
        let frame = CanFrame::new(AMS_PER_IC_PEC_HI_ID, &[7, 3, 0, 0, 0, 0, 0, 0]).unwrap();
        match decode_frame(&frame).unwrap() {
            PitDiagFrame::PerIcPec(p) => {
                assert_eq!(p.first_ic, 8);
                // 10 ICs total − 8 in the low frame = 2 real here.
                assert_eq!(p.valid, 2);
                assert_eq!(p.counts[0], 7);
                assert_eq!(p.counts[1], 3);
            }
            other => panic!("expected PerIcPec, got {other:?}"),
        }
    }

#[test]
fn per_ic_pec_short_payload_rejected() {
        let frame = CanFrame::new(AMS_PER_IC_PEC_LO_ID, &[0, 1, 2]).unwrap();
        assert_eq!(decode_frame(&frame), None);
    }

#[test]
fn decodes_balance_mask_a_and_b_reassemble() {
        // Frame A: cells 0, 5, 63 discharging.
        let lo: u64 = (1 << 0) | (1 << 5) | (1 << 63);
        let frame_a = CanFrame::new(AMS_BALANCE_MASK_A_ID, &lo.to_le_bytes()).unwrap();
        // Frame B: cell 64 (hi bit 0) + cell 94 (hi bit 30) discharging;
        // 1234 total cycles, 56 active.
        let hi: u32 = (1 << 0) | (1 << 30);
        let mut b = [0u8; 8];
        b[0..4].copy_from_slice(&hi.to_le_bytes());
        b[4..6].copy_from_slice(&1234u16.to_le_bytes());
        b[6..8].copy_from_slice(&56u16.to_le_bytes());
        let frame_b = CanFrame::new(AMS_BALANCE_MASK_B_ID, &b).unwrap();

        let a = match decode_frame(&frame_a).unwrap() {
            PitDiagFrame::BalanceMaskA(a) => a,
            other => panic!("expected BalanceMaskA, got {other:?}"),
        };
        let bb = match decode_frame(&frame_b).unwrap() {
            PitDiagFrame::BalanceMaskB(b) => b,
            other => panic!("expected BalanceMaskB, got {other:?}"),
        };
        assert_eq!(bb.cycles_total, 1234);
        assert_eq!(bb.cycles_active, 56);

        // Reassemble + check the bit math, including the 64-boundary.
        let state = BalanceState {
            dcc_lo: a.dcc_lo,
            dcc_hi: bb.dcc_hi,
            cycles_total: bb.cycles_total,
            cycles_active: bb.cycles_active,
        };
        assert!(state.is_discharging(0));
        assert!(state.is_discharging(5));
        assert!(!state.is_discharging(6));
        assert!(state.is_discharging(63));
        assert!(state.is_discharging(64)); // first bit of frame B
        assert!(state.is_discharging(94)); // last real cell
        assert!(!state.is_discharging(93));
        assert!(!state.is_discharging(95)); // out of range
    }

#[test]
fn decodes_boot_diag_jump_reasons() {
        // 'JUMP' = 0x4A554D50, progress 7 (clean), fdcan OK (0).
        let mut p = [0u8; 8];
        p[0..4].copy_from_slice(&0x4A55_4D50u32.to_le_bytes());
        p[4] = 7;
        // bytes 5..7 = 0 ⇒ fdcan1_start_result 0
        let frame = CanFrame::new(AMS_BOOT_DIAG_ID, &p).unwrap();
        match decode_frame(&frame).unwrap() {
            PitDiagFrame::BootDiag(b) => {
                assert_eq!(b.jump_reason, JumpReason::CanTrigger);
                assert_eq!(b.app_init_progress, 7);
                assert_eq!(b.fdcan1_start_result, 0);
            }
            other => panic!("expected BootDiag, got {other:?}"),
        }

        // Cold boot (0) + a non-zero 24-bit HAL status.
        let mut p2 = [0u8; 8];
        p2[4] = 3;
        p2[5] = 0x01; // fdcan result low byte
        let frame2 = CanFrame::new(AMS_BOOT_DIAG_ID, &p2).unwrap();
        match decode_frame(&frame2).unwrap() {
            PitDiagFrame::BootDiag(b) => {
                assert_eq!(b.jump_reason, JumpReason::PowerOn);
                assert_eq!(b.app_init_progress, 3);
                assert_eq!(b.fdcan1_start_result, 1);
            }
            other => panic!("expected BootDiag, got {other:?}"),
        }
    }

#[test]
fn decodes_post_mortem_clean_and_crashed() {
        // Clean: all zero ⇒ is_clean().
        let clean = CanFrame::new(AMS_POST_MORTEM_ID, &[0; 8]).unwrap();
        match decode_frame(&clean).unwrap() {
            PitDiagFrame::PostMortem(p) => assert!(p.is_clean()),
            other => panic!("expected PostMortem, got {other:?}"),
        }

        // Crashed: stack overflow on a task at 0x2000_1234, watermark
        // 8 words, 2 malloc failures.
        let mut p = [0u8; 8];
        p[0] = 1; // stack_overflow_seen
        p[1] = 8; // watermark
        p[2..6].copy_from_slice(&0x2000_1234u32.to_le_bytes());
        p[6..8].copy_from_slice(&2u16.to_le_bytes());
        let frame = CanFrame::new(AMS_POST_MORTEM_ID, &p).unwrap();
        match decode_frame(&frame).unwrap() {
            PitDiagFrame::PostMortem(p) => {
                assert!(!p.is_clean());
                assert!(p.stack_overflow_seen);
                assert_eq!(p.watermark_low_byte, 8);
                assert_eq!(p.task_addr_lo, 0x2000_1234);
                assert_eq!(p.malloc_failed_count, 2);
            }
            other => panic!("expected PostMortem, got {other:?}"),
        }
    }

#[test]
fn decodes_fw_id() {
        // AMS v1.6.0, git AB CD EF 01, BL node-id 2.
        let frame = CanFrame::new(AMS_FW_ID_ID, &[1, 6, 0, 0xAB, 0xCD, 0xEF, 0x01, 0x02]).unwrap();
        match decode_frame(&frame).unwrap() {
            PitDiagFrame::FwId(f) => {
                assert_eq!(
                    (f.version_major, f.version_minor, f.version_patch),
                    (1, 6, 0)
                );
                assert_eq!(f.git_hash, [0xAB, 0xCD, 0xEF, 0x01]);
                assert_eq!(f.bl_node_id, 2);
            }
            other => panic!("expected FwId, got {other:?}"),
        }
    }

#[test]
fn new_diag_frames_reject_short_payloads() {
        for id in [
            AMS_BALANCE_MASK_A_ID,
            AMS_BALANCE_MASK_B_ID,
            AMS_BOOT_DIAG_ID,
            AMS_POST_MORTEM_ID,
            AMS_FW_ID_ID,
        ] {
            let frame = CanFrame::new(id, &[0, 1, 2, 3]).unwrap();
            assert_eq!(decode_frame(&frame), None, "id {id:#X} should reject short");
        }
    }

#[test]
fn mod_unrelated_id_returns_none() {
        let frame = CanFrame::new(0x123, &[0; 8]).unwrap();
        assert_eq!(decode_frame(&frame), None);
    }

#[test]
fn short_payload_on_recognised_id_returns_none() {
        // 0x680 expects 8 bytes; a 4-byte payload should be rejected
        // so we don't index out of bounds.
        let frame = CanFrame::new(0x680, &[0x0D, 0x48, 0x0D, 0x50]).unwrap();
        assert_eq!(decode_frame(&frame), None);
    }
