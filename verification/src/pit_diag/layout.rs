//! The wire layout of every pit-diag frame, field by field: which payload
//! bytes each decoded field comes from, in which byte order and with
//! which sign.
use vstd::prelude::*;
use crate::bytes::{as_i8, le32};
use super::ecu::{self, inv_temp, EcuFsmState, EcuInvState, EcuPitDiagFrame, EcuResetCause};
use super::udv::{self, UdvAsState, UdvAssi, UdvEbsInit, UdvPitDiagFrame, UdvResStatus, UdvSteerMotor};
use super::{
    decode_spec, FaultReason, FsmState, JumpReason, ModeLock, PitDiagFrame, AMS_ACK_ID, AMS_BALANCE_MASK_A_ID,
    AMS_BALANCE_MASK_B_ID, AMS_BOOT_DIAG_ID, AMS_CELLV_BASE_ID, AMS_CELLV_LAST_ID, AMS_FSM_STATUS_ID, AMS_FW_ID_ID,
    AMS_NTC_BASE_ID, AMS_NTC_LAST_ID, AMS_PER_IC_PEC_HI_ID, AMS_PER_IC_PEC_LO_ID, AMS_POLL_TIMING_ID,
    AMS_POST_MORTEM_ID,
};

verus! {

/// Wire layout of the uDV `Status` frame: each field read from its payload bytes.
pub proof fn lemma_udv_status_layout(p: Seq<u8>)
    requires
        p.len() >= 8,
    ensures
        match udv::decode_spec(udv::UDV_STATUS_ID, p) {
            Some(UdvPitDiagFrame::Status(f)) => {
                &&& f.as_state == (UdvAsState::from_byte(p[0]))
                &&& f.signals == ((p[1] + p[2] * 256))
                &&& f.mission_id == ((if p[3] >= 128 { p[3] - 256 } else { p[3] as int }))
                &&& f.ebs_init == (UdvEbsInit::from_byte(p[4]))
                &&& f.stub_mask == (p[5])
                &&& f.assi == (UdvAssi::from_byte(p[6]))
                &&& f.diag_armed == (p[7] != 0)
            },
            _ => false,
        },
{
}

/// Wire layout of the uDV `Res` frame: each field read from its payload bytes.
pub proof fn lemma_udv_res_layout(p: Seq<u8>)
    requires
        p.len() >= 8,
    ensures
        match udv::decode_spec(udv::UDV_RES_ID, p) {
            Some(UdvPitDiagFrame::Res(f)) => {
                &&& f.raw_0x191 == (p[0])
                &&& f.res_status == (UdvResStatus::from_byte(as_i8(p[1])))
                &&& f.bits == (p[2])
                &&& f.radio_quality == (p[3])
                &&& f.res_age_ms == ((p[4] + p[5] * 256))
                &&& f.steer_motor == (UdvSteerMotor::from_byte(as_i8(p[6])))
                &&& f.lws_status == (p[7])
            },
            _ => false,
        },
{
}

/// Wire layout of the uDV `Pipe` frame: each field read from its payload bytes.
pub proof fn lemma_udv_pipe_layout(p: Seq<u8>)
    requires
        p.len() >= 8,
    ensures
        match udv::decode_spec(udv::UDV_PIPE_ID, p) {
            Some(UdvPitDiagFrame::Pipe(f)) => {
                &&& f.dv_status == (p[0])
                &&& f.dv_age_ms == ((p[1] + p[2] * 256))
                &&& f.accel_cmd_pct == ((if p[3] >= 128 { p[3] - 256 } else { p[3] as int }))
                &&& f.steer_cmd == ((if p[4] >= 128 { p[4] - 256 } else { p[4] as int }))
                &&& f.ctrl_age_ms == ((p[5] + p[6] * 256))
                &&& f.setup_bits == (p[7])
            },
            _ => false,
        },
{
}

/// Wire layout of the uDV `Health` frame: each field read from its payload bytes.
pub proof fn lemma_udv_health_layout(p: Seq<u8>)
    requires
        p.len() >= 8,
    ensures
        match udv::decode_spec(udv::UDV_HEALTH_ID, p) {
            Some(UdvPitDiagFrame::Health(f)) => {
                &&& f.free_heap_words == ((p[0] + p[1] * 256))
                &&& f.min_free_heap_words == ((p[2] + p[3] * 256))
                &&& f.task_mask == (p[4])
                &&& f.flags == (p[5])
                &&& f.stalled_task == ((if p[6] >= 128 { p[6] - 256 } else { p[6] as int }))
                &&& f.uptime_s == (p[7])
            },
            _ => false,
        },
{
}

/// Wire layout of the uDV `FwInfo` frame: each field read from its payload bytes.
pub proof fn lemma_udv_fw_info_layout(p: Seq<u8>)
    requires
        p.len() >= 8,
    ensures
        match udv::decode_spec(udv::UDV_FWINFO_ID, p) {
            Some(UdvPitDiagFrame::FwInfo(f)) => {
                &&& f.git_hash == ((p[0] + p[1] * 0x100 + p[2] * 0x1_0000 + p[3] * 0x100_0000))
                &&& f.stub_mask == (p[4])
                &&& f.heap_size_kb == (p[5])
                &&& f.uptime_s == (p[6])
            },
            _ => false,
        },
{
}

/// Wire layout of the uDV `CanHealth` frame: each field read from its payload bytes.
pub proof fn lemma_udv_can_health_layout(p: Seq<u8>)
    requires
        p.len() >= 8,
    ensures
        match udv::decode_spec(udv::UDV_CANHEALTH_ID, p) {
            Some(UdvPitDiagFrame::CanHealth(f)) => {
                &&& f.flags == (p[0])
                &&& f.last_error_code == (p[1])
                &&& f.tx_err_count == (p[2])
                &&& f.rx_err_count == (p[3])
                &&& f.res_rx_count == ((p[4] + p[5] * 256))
                &&& f.nmt_count == (p[6])
                &&& f.ack_error == (p[7] != 0)
            },
            _ => false,
        },
{
}

/// Wire layout of the uDV `Calib` frame: each field read from its payload bytes.
pub proof fn lemma_udv_calib_layout(p: Seq<u8>)
    requires
        p.len() >= 8,
    ensures
        match udv::decode_spec(udv::UDV_CALIB_ID, p) {
            Some(UdvPitDiagFrame::Calib(f)) => {
                &&& f.phase == (p[0])
                &&& f.error == (p[1])
                &&& f.center_ddeg == ((if (p[2] + p[3] * 256) >= 0x8000 { (p[2] + p[3] * 256) - 0x1_0000 } else { (p[2] + p[3] * 256) }))
                &&& f.half_range_ddeg == ((if (p[4] + p[5] * 256) >= 0x8000 { (p[4] + p[5] * 256) - 0x1_0000 } else { (p[4] + p[5] * 256) }))
                &&& f.limit_ddeg == ((if (p[6] + p[7] * 256) >= 0x8000 { (p[6] + p[7] * 256) - 0x1_0000 } else { (p[6] + p[7] * 256) }))
            },
            _ => false,
        },
{
}

/// Wire layout of the ECU `Status` frame: each field read from its payload bytes.
pub proof fn lemma_ecu_status_layout(p: Seq<u8>)
    requires
        p.len() >= 8,
    ensures
        match ecu::decode_spec(ecu::ECU_STATUS_ID, p) {
            Some(EcuPitDiagFrame::Status(f)) => {
                &&& f.fsm_state == (EcuFsmState::from_byte(p[0]))
                &&& f.inv_state == (EcuInvState::from_byte(p[1]))
                &&& f.ev_2_3 == (p[2] & 0x01 != 0)
                &&& f.t11_8_9 == (p[2] & 0x02 != 0)
                &&& f.rtds_active == (p[2] & 0x04 != 0)
                &&& f.ok_precharge == (p[2] & 0x08 != 0)
                &&& f.start_button == (p[2] & 0x10 != 0)
                &&& f.dv_mode == (p[2] & 0x20 != 0)
                &&& f.torque_pct == (p[3])
                &&& f.v_cell_min_mv == ((p[4] * 256 + p[5]))
                &&& f.torque_cmd == ((if (p[6] * 256 + p[7]) >= 0x8000 { (p[6] * 256 + p[7]) - 0x1_0000 } else { (p[6] * 256 + p[7]) }))
            },
            _ => false,
        },
{
}

/// Wire layout of the ECU `Pedals` frame: each field read from its payload bytes.
pub proof fn lemma_ecu_pedals_layout(p: Seq<u8>)
    requires
        p.len() >= 8,
    ensures
        match ecu::decode_spec(ecu::ECU_PEDALS_ID, p) {
            Some(EcuPitDiagFrame::Pedals(f)) => {
                &&& f.apps1_raw == ((p[0] * 256 + p[1]))
                &&& f.apps2_raw == ((p[2] * 256 + p[3]))
                &&& f.brake_raw == ((p[4] * 256 + p[5]))
                &&& f.apps1_pct == (p[6])
                &&& f.apps2_pct == (p[7])
            },
            _ => false,
        },
{
}

/// Wire layout of the ECU `Brake` frame: each field read from its payload bytes.
pub proof fn lemma_ecu_brake_layout(p: Seq<u8>)
    requires
        p.len() >= 3,
    ensures
        match ecu::decode_spec(ecu::ECU_BRAKE_ID, p) {
            Some(EcuPitDiagFrame::Brake(f)) => {
                &&& f.brake_pressure_dbar == ((p[0] * 256 + p[1]))
                &&& f.brake_pct == (p[2])
            },
            _ => false,
        },
{
}

/// Wire layout of the ECU `Inverter` frame: each field read from its payload bytes.
pub proof fn lemma_ecu_inverter_layout(p: Seq<u8>)
    requires
        p.len() >= 7,
    ensures
        match ecu::decode_spec(ecu::ECU_INVERTER_ID, p) {
            Some(EcuPitDiagFrame::Inverter(f)) => {
                &&& f.dc_bus_voltage == ((p[0] * 256 + p[1]))
                &&& f.inv_rpm == ((if (p[5] + p[4] * 0x100 + p[3] * 0x1_0000 + p[2] * 0x100_0000) >= 0x8000_0000 { (p[5] + p[4] * 0x100 + p[3] * 0x1_0000 + p[2] * 0x100_0000) - 0x1_0000_0000 } else { (p[5] + p[4] * 0x100 + p[3] * 0x1_0000 + p[2] * 0x100_0000) }))
                &&& f.inv_error == (p[6])
                &&& f.dem_present == (p.len() > 7 && p[7] & 0x01 != 0)
            },
            _ => false,
        },
{
}

/// Wire layout of the ECU `FwInfo` frame: each field read from its payload bytes.
pub proof fn lemma_ecu_fw_info_layout(p: Seq<u8>)
    requires
        p.len() >= 7,
    ensures
        match ecu::decode_spec(ecu::ECU_FWINFO_ID, p) {
            Some(EcuPitDiagFrame::FwInfo(f)) => {
                &&& f.fw_major == (p[0])
                &&& f.fw_minor == (p[1])
                &&& f.fw_patch == (p[2])
                &&& f.git_hash[0] == p[3]
                &&& f.git_hash[1] == p[4]
                &&& f.git_hash[2] == p[5]
                &&& f.git_hash[3] == p[6]
            },
            _ => false,
        },
{
}

/// Wire layout of the ECU `InverterTemps` frame: each field read from its payload bytes.
pub proof fn lemma_ecu_inverter_temps_layout(p: Seq<u8>)
    requires
        p.len() >= 4,
    ensures
        match ecu::decode_spec(ecu::ECU_INVERTER_TEMPS_ID, p) {
            Some(EcuPitDiagFrame::InverterTemps(f)) => {
                &&& f.board_degc == (inv_temp(p[0]))
                &&& f.pwrstg_degc == (inv_temp(p[1]))
                &&& f.motor1_degc == (inv_temp(p[2]))
                &&& f.motor2_degc == (inv_temp(p[3]))
            },
            _ => false,
        },
{
}

/// Wire layout of the ECU `Health` frame: each field read from its payload bytes.
pub proof fn lemma_ecu_health_layout(p: Seq<u8>)
    requires
        p.len() >= 8,
    ensures
        match ecu::decode_spec(ecu::ECU_HEALTH_ID, p) {
            Some(EcuPitDiagFrame::Health(f)) => {
                &&& f.free_heap == ((p[0] * 256 + p[1]))
                &&& f.min_free_heap == ((p[2] * 256 + p[3]))
                &&& f.task_control == (p[4] & 0x01 != 0)
                &&& f.task_can_rx == (p[4] & 0x02 != 0)
                &&& f.task_can_tx == (p[4] & 0x04 != 0)
                &&& f.task_diag == (p[4] & 0x08 != 0)
                &&& f.reset_cause == (EcuResetCause::from_byte(p[5]))
                &&& f.uptime_s == (p[6])
                &&& f.last_fault == (p[7])
            },
            _ => false,
        },
{
}

/// Wire layout of the ECU `Dv` frame: each field read from its payload bytes.
pub proof fn lemma_ecu_dv_layout(p: Seq<u8>)
    requires
        p.len() >= 4,
    ensures
        match ecu::decode_spec(ecu::ECU_DV_ID, p) {
            Some(EcuPitDiagFrame::Dv(f)) => {
                &&& f.dv_r2d_req == (p[0] & 0x01 != 0)
                &&& f.dv_cmd_fresh == (p[0] & 0x02 != 0)
                &&& f.ts_active == (p[0] & 0x04 != 0)
                &&& f.brake_over_limit == (p[0] & 0x08 != 0)
                &&& f.r2d_confirm == (p[0] & 0x10 != 0)
                &&& f.dv_torque_pct == (p[1])
                &&& f.motor_rpm_mech == ((if (p[2] + p[3] * 256) >= 0x8000 { (p[2] + p[3] * 256) - 0x1_0000 } else { (p[2] + p[3] * 256) }))
            },
            _ => false,
        },
{
}

/// Wire layout of the AMS `FsmStatus` frame: each field read from its payload bytes.
pub proof fn lemma_ams_fsm_status_layout(p: Seq<u8>)
    requires
        p.len() >= 6,
    ensures
        match decode_spec(AMS_FSM_STATUS_ID, p) {
            Some(PitDiagFrame::FsmStatus(f)) => {
                &&& f.state == (FsmState::from_byte(p[0]))
                &&& f.mode_locked == (ModeLock::from_byte(p[1]))
                &&& f.tsms == (p[2] & 2 != 0)
                &&& f.dash_chg == (p[2] & 1 != 0)
                &&& f.ams_ok == (p[3] != 0)
                &&& f.pec_error_total == ((p[4] * 256 + p[5]))
                &&& f.fault_reason == (if p.len() > 6 { FaultReason::from_byte(p[6]) } else { FaultReason::NoFault })
                &&& f.fault_detail == (if p.len() > 7 { p[7] } else { 0 })
            },
            _ => false,
        },
{
}

/// Wire layout of the AMS `PollTiming` frame: each field read from its payload bytes.
pub proof fn lemma_ams_poll_timing_layout(p: Seq<u8>)
    requires
        p.len() >= 8,
    ensures
        match decode_spec(AMS_POLL_TIMING_ID, p) {
            Some(PitDiagFrame::PollTiming(f)) => {
                &&& f.last_v_poll_ms == ((p[0] * 256 + p[1]))
                &&& f.worst_v_poll_ms == ((p[2] * 256 + p[3]))
                &&& f.t_sweep_fail_mask == ((p[4] + p[5] * 0x100 + p[6] * 0x1_0000 + p[7] * 0x100_0000))
            },
            _ => false,
        },
{
}

/// Wire layout of the AMS `BalanceMaskA` frame: each field read from its payload bytes.
pub proof fn lemma_ams_balance_mask_a_layout(p: Seq<u8>)
    requires
        p.len() >= 8,
    ensures
        match decode_spec(AMS_BALANCE_MASK_A_ID, p) {
            Some(PitDiagFrame::BalanceMaskA(f)) => {
                &&& f.dcc_lo == ((p[0] + p[1] * 0x100 + p[2] * 0x1_0000 + p[3] * 0x100_0000 + p[4] * 0x1_0000_0000 + p[5] * 0x100_0000_0000 + p[6] * 0x1_0000_0000_0000 + p[7] * 0x100_0000_0000_0000))
            },
            _ => false,
        },
{
}

/// Wire layout of the AMS `BalanceMaskB` frame: each field read from its payload bytes.
pub proof fn lemma_ams_balance_mask_b_layout(p: Seq<u8>)
    requires
        p.len() >= 8,
    ensures
        match decode_spec(AMS_BALANCE_MASK_B_ID, p) {
            Some(PitDiagFrame::BalanceMaskB(f)) => {
                &&& f.dcc_hi == ((p[0] + p[1] * 0x100 + p[2] * 0x1_0000 + p[3] * 0x100_0000))
                &&& f.cycles_total == ((p[4] + p[5] * 256))
                &&& f.cycles_active == ((p[6] + p[7] * 256))
            },
            _ => false,
        },
{
}

/// Wire layout of the AMS `BootDiag` frame: each field read from its payload bytes.
pub proof fn lemma_ams_boot_diag_layout(p: Seq<u8>)
    requires
        p.len() >= 8,
    ensures
        match decode_spec(AMS_BOOT_DIAG_ID, p) {
            Some(PitDiagFrame::BootDiag(f)) => {
                &&& f.jump_reason == (JumpReason::from_u32(le32(p[0], p[1], p[2], p[3])))
                &&& f.app_init_progress == (p[4])
                &&& f.fdcan1_start_result == ((p[5] + p[6] * 0x100 + p[7] * 0x1_0000 + 0 * 0x100_0000))
            },
            _ => false,
        },
{
}

/// Wire layout of the AMS `PostMortem` frame: each field read from its payload bytes.
pub proof fn lemma_ams_post_mortem_layout(p: Seq<u8>)
    requires
        p.len() >= 8,
    ensures
        match decode_spec(AMS_POST_MORTEM_ID, p) {
            Some(PitDiagFrame::PostMortem(f)) => {
                &&& f.stack_overflow_seen == (p[0] != 0)
                &&& f.watermark_low_byte == (p[1])
                &&& f.task_addr_lo == ((p[2] + p[3] * 0x100 + p[4] * 0x1_0000 + p[5] * 0x100_0000))
                &&& f.malloc_failed_count == ((p[6] + p[7] * 256))
            },
            _ => false,
        },
{
}

/// Wire layout of the AMS `FwId` frame: each field read from its payload bytes.
pub proof fn lemma_ams_fw_id_layout(p: Seq<u8>)
    requires
        p.len() >= 8,
    ensures
        match decode_spec(AMS_FW_ID_ID, p) {
            Some(PitDiagFrame::FwId(f)) => {
                &&& f.version_major == (p[0])
                &&& f.version_minor == (p[1])
                &&& f.version_patch == (p[2])
                &&& f.git_hash[0] == p[3]
                &&& f.git_hash[1] == p[4]
                &&& f.git_hash[2] == p[5]
                &&& f.git_hash[3] == p[6]
                &&& f.bl_node_id == (p[7])
            },
            _ => false,
        },
{
}

/// Wire layout of the AMS cell-voltage frames: frame `k` (identifier
/// base + k) carries cells `4k..4k+4` as big-endian millivolts.
pub proof fn lemma_ams_cell_voltage_layout(id: u16, p: Seq<u8>)
    requires
        AMS_CELLV_BASE_ID <= id <= AMS_CELLV_LAST_ID,
        p.len() >= 8,
    ensures
        match decode_spec(id, p) {
            Some(PitDiagFrame::CellVoltage(f)) => {
                &&& f.frame_idx == id - AMS_CELLV_BASE_ID
                &&& f.first_cell == (id - AMS_CELLV_BASE_ID) * 4
                &&& f.voltages_mv[0] == p[0] * 256 + p[1]
                &&& f.voltages_mv[1] == p[2] * 256 + p[3]
                &&& f.voltages_mv[2] == p[4] * 256 + p[5]
                &&& f.voltages_mv[3] == p[6] * 256 + p[7]
            },
            _ => false,
        },
{
}

/// Wire layout of the AMS temperature frames: frame `k` (identifier
/// base + k) carries NTCs `8k..8k+8`, one signed byte each.
pub proof fn lemma_ams_ntc_temp_layout(id: u16, p: Seq<u8>, j: int)
    requires
        AMS_NTC_BASE_ID <= id <= AMS_NTC_LAST_ID,
        p.len() >= 8,
        0 <= j < 8,
    ensures
        match decode_spec(id, p) {
            Some(PitDiagFrame::NtcTemp(f)) => {
                &&& f.frame_idx == id - AMS_NTC_BASE_ID
                &&& f.first_ntc == (id - AMS_NTC_BASE_ID) * 8
                &&& f.temps_c[j] == if p[j] >= 128 { p[j] - 256 } else { p[j] as int }
            },
            _ => false,
        },
{
}

/// Wire layout of the AMS per-IC PEC frames: the low frame counts ICs
/// 0..8 (all eight bytes valid), the high frame ICs 8..10 (two valid).
pub proof fn lemma_ams_per_ic_pec_layout(id: u16, p: Seq<u8>)
    requires
        id == AMS_PER_IC_PEC_LO_ID || id == AMS_PER_IC_PEC_HI_ID,
        p.len() >= 8,
    ensures
        match decode_spec(id, p) {
            Some(PitDiagFrame::PerIcPec(f)) => {
                &&& f.counts@ == p.subrange(0, 8)
                &&& f.first_ic == if id == AMS_PER_IC_PEC_LO_ID { 0int } else { 8int }
                &&& f.valid == if id == AMS_PER_IC_PEC_LO_ID { 8int } else { 2int }
            },
            _ => false,
        },
{
    if let Some(PitDiagFrame::PerIcPec(f)) = decode_spec(id, p) {
        assert(f.counts@ =~= p.subrange(0, 8));
    }
}

/// The AMS and ECU acknowledgements report `enabled` exactly when the
/// first payload byte is 1.
pub proof fn lemma_ack_layout(p: Seq<u8>)
    ensures
        decode_spec(AMS_ACK_ID, p) == Some(PitDiagFrame::Ack { enabled: p.len() > 0 && p[0] == 1 }),
        ecu::decode_spec(ecu::ECU_ACK_ID, p) == Some(EcuPitDiagFrame::Ack { enabled: p.len() > 0 && p[0] == 1 }),
{
}

/// Which uDV frames decode at all: exactly the seven stream identifiers
/// `0x7A0..=0x7A6`, each with a full 8-byte payload.
pub proof fn lemma_udv_decodes_exactly(id: u16, p: Seq<u8>)
    ensures
        udv::decode_spec(id, p) is Some <==> 0x7A0 <= id <= 0x7A6 && p.len() >= 8,
{
}

/// Which ECU frames decode at all: the acknowledgement with any payload,
/// and each stream frame once its payload reaches the bytes it reads
/// (8 for status, pedals and health; 7 for inverter and firmware info;
/// 4 for inverter temperatures and DV; 3 for brake).
pub proof fn lemma_ecu_decodes_exactly(id: u16, p: Seq<u8>)
    ensures
        ecu::decode_spec(id, p) is Some <==> {
            ||| id == 0x7E1
            ||| (id == 0x700 || id == 0x701 || id == 0x704) && p.len() >= 8
            ||| (id == 0x702 || id == 0x703) && p.len() >= 7
            ||| (id == 0x706 || id == 0x707) && p.len() >= 4
            ||| id == 0x705 && p.len() >= 3
        },
{
}

/// Which AMS frames decode at all: the acknowledgement with any payload,
/// the FSM status from 6 bytes on, and every other stream frame (cell
/// voltages `0x680..=0x697`, NTC temperatures `0x6A0..=0x6B8`, diagnostics
/// `0x6C1..=0x6C8`) with a full 8-byte payload.
pub proof fn lemma_ams_decodes_exactly(id: u16, p: Seq<u8>)
    ensures
        decode_spec(id, p) is Some <==> {
            ||| id == 0x7F1
            ||| id == 0x6C0 && p.len() >= 6
            ||| (0x680 <= id <= 0x697 || 0x6A0 <= id <= 0x6B8 || 0x6C1 <= id <= 0x6C8) && p.len() >= 8
        },
{
}

} // verus!
