//! What each pit-diag line shows, label by label: every human line and
//! every NDJSON object spelled out as the sequence of its labels, each
//! followed by the rendering of the field it names.
use vstd::prelude::*;
use crate::cli::pit_diag_lines::{
    fault_suffix, record_human_text, ts_prefix, valid_count,
    ams_ack_human_text, ams_cell_human_text, ams_ntc_human_text, ams_fsm_human_text, ams_poll_human_text, ams_bal_a_human_text, ams_bal_b_human_text, ams_boot_human_text, ams_crash_clean_human_text, ams_crash_human_text, ams_fw_human_text, ams_pec_human_text, ams_ack_json_text, ams_cell_json_text, ams_ntc_json_text, ams_fsm_json_text, ams_poll_json_text, ams_bal_a_json_text, ams_bal_b_json_text, ams_boot_json_text, ams_crash_json_text, ams_fw_json_text, ams_pec_json_text, ecu_status_human_text, ecu_pedals_human_text, ecu_brake_human_text, ecu_inverter_human_text, ecu_temps_human_text, ecu_fw_human_text, ecu_health_human_text, ecu_dv_human_text, ecu_status_json_text, ecu_pedals_json_text, ecu_brake_json_text, ecu_inverter_json_text, ecu_temps_json_text, ecu_fw_json_text, ecu_health_json_text, ecu_dv_json_text, udv_status_human_text, udv_res_human_text, udv_pipe_human_text, udv_health_human_text, udv_fw_human_text, udv_can_human_text, udv_calib_human_text, udv_status_json_text, udv_res_json_text, udv_pipe_json_text, udv_health_json_text, udv_fw_json_text, udv_can_json_text, udv_calib_json_text,
};
use crate::pit_diag::ecu::{
    EcuBrakeFrame, EcuDvFrame, EcuFwInfoFrame, EcuHealthFrame, EcuInverterFrame,
    EcuInverterTempsFrame, EcuPedalsFrame, EcuStatusFrame,
};
use crate::pit_diag::names::{
    ecu_fsm_state_debug, ecu_inv_state_debug, ecu_reset_cause_debug, fault_reason_debug,
    fsm_state_debug, jump_reason_debug, mode_lock_debug, udv_as_state_debug, udv_assi_debug,
    udv_ebs_init_debug, udv_res_status_debug, udv_steer_motor_debug,
};
use crate::pit_diag::udv::{
    calib_error_text, calib_phase_text, UdvCalibFrame, UdvCanHealthFrame, UdvFwInfoFrame,
    UdvHealthFrame, UdvPipeFrame, UdvResFrame, UdvStatusFrame,
};
use crate::pit_diag::{
    decode_spec, PitDiagFrame, AMS_POLL_TIMING_ID,
    BalanceMaskAFrame, BalanceMaskBFrame, BootDiagFrame, CellVoltageFrame, FsmStatusFrame,
    FwIdFrame, NtcTempFrame, PerIcPecFrame, PollTimingFrame, PostMortemFrame,
};
use crate::text::{bit_text, bool_text, dec, dec_int, hex_upper, join_dec, pad_left, tenths_text};

verus! {

/// The human line [`ams_ack_human_text`] describes, piece by piece: each label followed
/// by the rendering of the field it names, in order.
pub proof fn lemma_ams_ack_human_pieces(ts: u64, enabled: bool)
    ensures
        ams_ack_human_text(ts, enabled) == (
            ts_prefix(ts)
            + " ack enabled="@
            + bool_text(enabled)
        ),
{
}

/// The human line [`ams_cell_human_text`] describes, piece by piece: each label followed
/// by the rendering of the field it names, in order.
pub proof fn lemma_ams_cell_human_pieces(ts: u64, c: CellVoltageFrame)
    ensures
        ams_cell_human_text(ts, c) == (
            ts_prefix(ts)
            + " cell  frame="@
            + pad_left(dec(c.frame_idx as nat), 2, ' ')
            + " cells["@
            + pad_left(dec(c.first_cell as nat), 2, ' ')
            + ".."@
            + pad_left(dec((c.first_cell + 4) as nat), 2, ' ')
            + "] = "@
            + pad_left(dec(c.voltages_mv@[0] as nat), 4, ' ')
            + " "@
            + pad_left(dec(c.voltages_mv@[1] as nat), 4, ' ')
            + " "@
            + pad_left(dec(c.voltages_mv@[2] as nat), 4, ' ')
            + " "@
            + pad_left(dec(c.voltages_mv@[3] as nat), 4, ' ')
            + " mV"@
        ),
{
}

/// The human line [`ams_ntc_human_text`] describes, piece by piece: each label followed
/// by the rendering of the field it names, in order.
pub proof fn lemma_ams_ntc_human_pieces(ts: u64, t: NtcTempFrame)
    ensures
        ams_ntc_human_text(ts, t) == (
            ts_prefix(ts)
            + " ntc   frame="@
            + pad_left(dec(t.frame_idx as nat), 2, ' ')
            + " ntcs["@
            + pad_left(dec(t.first_ntc as nat), 3, ' ')
            + ".."@
            + pad_left(dec((t.first_ntc + 8) as nat), 3, ' ')
            + "] = "@
            + pad_left(dec_int(t.temps_c@[0] as int), 4, ' ')
            + " "@
            + pad_left(dec_int(t.temps_c@[1] as int), 4, ' ')
            + " "@
            + pad_left(dec_int(t.temps_c@[2] as int), 4, ' ')
            + " "@
            + pad_left(dec_int(t.temps_c@[3] as int), 4, ' ')
            + " "@
            + pad_left(dec_int(t.temps_c@[4] as int), 4, ' ')
            + " "@
            + pad_left(dec_int(t.temps_c@[5] as int), 4, ' ')
            + " "@
            + pad_left(dec_int(t.temps_c@[6] as int), 4, ' ')
            + " "@
            + pad_left(dec_int(t.temps_c@[7] as int), 4, ' ')
            + " °C"@
        ),
{
}

/// The human line [`ams_fsm_human_text`] describes, piece by piece: each label followed
/// by the rendering of the field it names, in order.
pub proof fn lemma_ams_fsm_human_pieces(ts: u64, f: FsmStatusFrame)
    ensures
        ams_fsm_human_text(ts, f) == (
            ts_prefix(ts)
            + " fsm   state="@
            + fsm_state_debug(f.state)
            + " mode="@
            + mode_lock_debug(f.mode_locked)
            + " tsms="@
            + bit_text(f.tsms)
            + " dash="@
            + bit_text(f.dash_chg)
            + " ams_ok="@
            + bit_text(f.ams_ok)
            + " pec="@
            + dec(f.pec_error_total as nat)
            + fault_suffix(f.fault_reason, f.fault_detail)
        ),
{
}

/// The human line [`ams_poll_human_text`] describes, piece by piece: each label followed
/// by the rendering of the field it names, in order.
pub proof fn lemma_ams_poll_human_pieces(ts: u64, p: PollTimingFrame)
    ensures
        ams_poll_human_text(ts, p) == (
            ts_prefix(ts)
            + " poll  v_last="@
            + pad_left(dec(p.last_v_poll_ms as nat), 4, ' ')
            + "ms v_worst="@
            + pad_left(dec(p.worst_v_poll_ms as nat), 4, ' ')
            + "ms tsweep_fail=0x"@
            + hex_upper(p.t_sweep_fail_mask as nat, 8)
        ),
{
}

/// The human line [`ams_bal_a_human_text`] describes, piece by piece: each label followed
/// by the rendering of the field it names, in order.
pub proof fn lemma_ams_bal_a_human_pieces(ts: u64, b: BalanceMaskAFrame)
    ensures
        ams_bal_a_human_text(ts, b) == (
            ts_prefix(ts)
            + " bal-a cells[ 0..63] dcc=0x"@
            + hex_upper(b.dcc_lo as nat, 16)
        ),
{
}

/// The human line [`ams_bal_b_human_text`] describes, piece by piece: each label followed
/// by the rendering of the field it names, in order.
pub proof fn lemma_ams_bal_b_human_pieces(ts: u64, b: BalanceMaskBFrame)
    ensures
        ams_bal_b_human_text(ts, b) == (
            ts_prefix(ts)
            + " bal-b cells[64..94] dcc=0x"@
            + hex_upper(b.dcc_hi as nat, 8)
            + " cycles total="@
            + dec(b.cycles_total as nat)
            + " active="@
            + dec(b.cycles_active as nat)
        ),
{
}

/// The human line [`ams_boot_human_text`] describes, piece by piece: each label followed
/// by the rendering of the field it names, in order.
pub proof fn lemma_ams_boot_human_pieces(ts: u64, b: BootDiagFrame)
    ensures
        ams_boot_human_text(ts, b) == (
            ts_prefix(ts)
            + " boot  jump="@
            + jump_reason_debug(b.jump_reason)
            + " init_progress="@
            + dec(b.app_init_progress as nat)
            + "/7 fdcan_start=0x"@
            + hex_upper(b.fdcan1_start_result as nat, 6)
        ),
{
}

/// The human line [`ams_crash_clean_human_text`] describes, piece by piece: each label followed
/// by the rendering of the field it names, in order.
pub proof fn lemma_ams_crash_clean_human_pieces(ts: u64)
    ensures
        ams_crash_clean_human_text(ts) == (
            ts_prefix(ts)
            + " crash (clean — no fault on previous boot)"@
        ),
{
}

/// The human line [`ams_crash_human_text`] describes, piece by piece: each label followed
/// by the rendering of the field it names, in order.
pub proof fn lemma_ams_crash_human_pieces(ts: u64, p: PostMortemFrame)
    ensures
        ams_crash_human_text(ts, p) == (
            ts_prefix(ts)
            + " crash stack_overflow="@
            + bit_text(p.stack_overflow_seen)
            + " watermark="@
            + dec(p.watermark_low_byte as nat)
            + " task_addr=0x"@
            + hex_upper(p.task_addr_lo as nat, 8)
            + " malloc_fails="@
            + dec(p.malloc_failed_count as nat)
        ),
{
}

/// The human line [`ams_fw_human_text`] describes, piece by piece: each label followed
/// by the rendering of the field it names, in order.
pub proof fn lemma_ams_fw_human_pieces(ts: u64, f: FwIdFrame)
    ensures
        ams_fw_human_text(ts, f) == (
            ts_prefix(ts)
            + " fw    v"@
            + dec(f.version_major as nat)
            + "."@
            + dec(f.version_minor as nat)
            + "."@
            + dec(f.version_patch as nat)
            + " git="@
            + hex_upper(f.git_hash@[0] as nat, 2)
            + hex_upper(f.git_hash@[1] as nat, 2)
            + hex_upper(f.git_hash@[2] as nat, 2)
            + hex_upper(f.git_hash@[3] as nat, 2)
            + " bl_node=0x"@
            + hex_upper(f.bl_node_id as nat, 2)
        ),
{
}

/// The human line [`ams_pec_human_text`] describes, piece by piece: each label followed
/// by the rendering of the field it names, in order.
pub proof fn lemma_ams_pec_human_pieces(ts: u64, p: PerIcPecFrame)
    ensures
        ams_pec_human_text(ts, p) == (
            ts_prefix(ts)
            + " pec   ICs["@
            + pad_left(dec(p.first_ic as nat), 2, ' ')
            + ".."@
            + pad_left(dec((p.first_ic + p.valid) as nat), 2, ' ')
            + "] = "@
            + join_dec(p.counts@.take(valid_count(p.valid)), 3, " "@)
        ),
{
}

/// The NDJSON object [`ams_ack_json_text`] describes, piece by piece: each label followed
/// by the rendering of the field it names, in order.
pub proof fn lemma_ams_ack_json_pieces(ts: u64, enabled: bool)
    ensures
        ams_ack_json_text(ts, enabled) == (
            "{\"tsMs\":"@ + dec(ts as nat)
            + ",\"kind\":\"ack\",\"enabled\":"@
            + bool_text(enabled)
            + "}"@
        ),
{
}

/// The NDJSON object [`ams_cell_json_text`] describes, piece by piece: each label followed
/// by the rendering of the field it names, in order.
pub proof fn lemma_ams_cell_json_pieces(ts: u64, c: CellVoltageFrame)
    ensures
        ams_cell_json_text(ts, c) == (
            "{\"tsMs\":"@ + dec(ts as nat)
            + ",\"kind\":\"cellVoltage\",\"frameIdx\":"@
            + dec(c.frame_idx as nat)
            + ",\"firstCell\":"@
            + dec(c.first_cell as nat)
            + ",\"voltagesMv\":["@
            + dec(c.voltages_mv@[0] as nat)
            + ","@
            + dec(c.voltages_mv@[1] as nat)
            + ","@
            + dec(c.voltages_mv@[2] as nat)
            + ","@
            + dec(c.voltages_mv@[3] as nat)
            + "]}"@
        ),
{
}

/// The NDJSON object [`ams_ntc_json_text`] describes, piece by piece: each label followed
/// by the rendering of the field it names, in order.
pub proof fn lemma_ams_ntc_json_pieces(ts: u64, t: NtcTempFrame)
    ensures
        ams_ntc_json_text(ts, t) == (
            "{\"tsMs\":"@ + dec(ts as nat)
            + ",\"kind\":\"ntcTemp\",\"frameIdx\":"@
            + dec(t.frame_idx as nat)
            + ",\"firstNtc\":"@
            + dec(t.first_ntc as nat)
            + ",\"tempsC\":["@
            + dec_int(t.temps_c@[0] as int)
            + ","@
            + dec_int(t.temps_c@[1] as int)
            + ","@
            + dec_int(t.temps_c@[2] as int)
            + ","@
            + dec_int(t.temps_c@[3] as int)
            + ","@
            + dec_int(t.temps_c@[4] as int)
            + ","@
            + dec_int(t.temps_c@[5] as int)
            + ","@
            + dec_int(t.temps_c@[6] as int)
            + ","@
            + dec_int(t.temps_c@[7] as int)
            + "]}"@
        ),
{
}

/// The NDJSON object [`ams_fsm_json_text`] describes, piece by piece: each label followed
/// by the rendering of the field it names, in order.
pub proof fn lemma_ams_fsm_json_pieces(ts: u64, f: FsmStatusFrame)
    ensures
        ams_fsm_json_text(ts, f) == (
            "{\"tsMs\":"@ + dec(ts as nat)
            + ",\"kind\":\"fsmStatus\",\"state\":\""@
            + fsm_state_debug(f.state)
            + "\",\"modeLocked\":\""@
            + mode_lock_debug(f.mode_locked)
            + "\",\"tsms\":"@
            + bool_text(f.tsms)
            + ",\"dashChg\":"@
            + bool_text(f.dash_chg)
            + ",\"amsOk\":"@
            + bool_text(f.ams_ok)
            + ",\"pecErrorTotal\":"@
            + dec(f.pec_error_total as nat)
            + ",\"faultReason\":\""@
            + fault_reason_debug(f.fault_reason)
            + "\",\"faultDetail\":"@
            + dec(f.fault_detail as nat)
            + "}"@
        ),
{
}

/// The NDJSON object [`ams_poll_json_text`] describes, piece by piece: each label followed
/// by the rendering of the field it names, in order.
pub proof fn lemma_ams_poll_json_pieces(ts: u64, p: PollTimingFrame)
    ensures
        ams_poll_json_text(ts, p) == (
            "{\"tsMs\":"@ + dec(ts as nat)
            + ",\"kind\":\"pollTiming\",\"lastVPollMs\":"@
            + dec(p.last_v_poll_ms as nat)
            + ",\"worstVPollMs\":"@
            + dec(p.worst_v_poll_ms as nat)
            + ",\"tSweepFailMask\":"@
            + dec(p.t_sweep_fail_mask as nat)
            + "}"@
        ),
{
}

/// The NDJSON object [`ams_bal_a_json_text`] describes, piece by piece: each label followed
/// by the rendering of the field it names, in order.
pub proof fn lemma_ams_bal_a_json_pieces(ts: u64, b: BalanceMaskAFrame)
    ensures
        ams_bal_a_json_text(ts, b) == (
            "{\"tsMs\":"@ + dec(ts as nat)
            + ",\"kind\":\"balanceMaskA\",\"dccLo\":"@
            + dec(b.dcc_lo as nat)
            + "}"@
        ),
{
}

/// The NDJSON object [`ams_bal_b_json_text`] describes, piece by piece: each label followed
/// by the rendering of the field it names, in order.
pub proof fn lemma_ams_bal_b_json_pieces(ts: u64, b: BalanceMaskBFrame)
    ensures
        ams_bal_b_json_text(ts, b) == (
            "{\"tsMs\":"@ + dec(ts as nat)
            + ",\"kind\":\"balanceMaskB\",\"dccHi\":"@
            + dec(b.dcc_hi as nat)
            + ",\"cyclesTotal\":"@
            + dec(b.cycles_total as nat)
            + ",\"cyclesActive\":"@
            + dec(b.cycles_active as nat)
            + "}"@
        ),
{
}

/// The NDJSON object [`ams_boot_json_text`] describes, piece by piece: each label followed
/// by the rendering of the field it names, in order.
pub proof fn lemma_ams_boot_json_pieces(ts: u64, b: BootDiagFrame)
    ensures
        ams_boot_json_text(ts, b) == (
            "{\"tsMs\":"@ + dec(ts as nat)
            + ",\"kind\":\"bootDiag\",\"jumpReason\":\""@
            + jump_reason_debug(b.jump_reason)
            + "\",\"appInitProgress\":"@
            + dec(b.app_init_progress as nat)
            + ",\"fdcan1StartResult\":"@
            + dec(b.fdcan1_start_result as nat)
            + "}"@
        ),
{
}

/// The NDJSON object [`ams_crash_json_text`] describes, piece by piece: each label followed
/// by the rendering of the field it names, in order.
pub proof fn lemma_ams_crash_json_pieces(ts: u64, p: PostMortemFrame)
    ensures
        ams_crash_json_text(ts, p) == (
            "{\"tsMs\":"@ + dec(ts as nat)
            + ",\"kind\":\"postMortem\",\"stackOverflowSeen\":"@
            + bool_text(p.stack_overflow_seen)
            + ",\"watermarkLowByte\":"@
            + dec(p.watermark_low_byte as nat)
            + ",\"taskAddrLo\":"@
            + dec(p.task_addr_lo as nat)
            + ",\"mallocFailedCount\":"@
            + dec(p.malloc_failed_count as nat)
            + "}"@
        ),
{
}

/// The NDJSON object [`ams_fw_json_text`] describes, piece by piece: each label followed
/// by the rendering of the field it names, in order.
pub proof fn lemma_ams_fw_json_pieces(ts: u64, f: FwIdFrame)
    ensures
        ams_fw_json_text(ts, f) == (
            "{\"tsMs\":"@ + dec(ts as nat)
            + ",\"kind\":\"fwId\",\"versionMajor\":"@
            + dec(f.version_major as nat)
            + ",\"versionMinor\":"@
            + dec(f.version_minor as nat)
            + ",\"versionPatch\":"@
            + dec(f.version_patch as nat)
            + ",\"gitHash\":["@
            + dec(f.git_hash@[0] as nat)
            + ","@
            + dec(f.git_hash@[1] as nat)
            + ","@
            + dec(f.git_hash@[2] as nat)
            + ","@
            + dec(f.git_hash@[3] as nat)
            + "],\"blNodeId\":"@
            + dec(f.bl_node_id as nat)
            + "}"@
        ),
{
}

/// The NDJSON object [`ams_pec_json_text`] describes, piece by piece: each label followed
/// by the rendering of the field it names, in order.
pub proof fn lemma_ams_pec_json_pieces(ts: u64, p: PerIcPecFrame)
    ensures
        ams_pec_json_text(ts, p) == (
            "{\"tsMs\":"@ + dec(ts as nat)
            + ",\"kind\":\"perIcPec\",\"firstIc\":"@
            + dec(p.first_ic as nat)
            + ",\"valid\":"@
            + dec(p.valid as nat)
            + ",\"counts\":["@
            + join_dec(p.counts@.take(valid_count(p.valid)), 0, ","@)
            + "]}"@
        ),
{
}

/// The human line [`ecu_status_human_text`] describes, piece by piece: each label followed
/// by the rendering of the field it names, in order.
pub proof fn lemma_ecu_status_human_pieces(ts: u64, v: EcuStatusFrame)
    ensures
        ecu_status_human_text(ts, v) == (
            ts_prefix(ts)
            + " status fsm="@
            + ecu_fsm_state_debug(v.fsm_state)
            + " inv="@
            + ecu_inv_state_debug(v.inv_state)
            + " torque="@
            + dec(v.torque_pct as nat)
            + "% vcell_min="@
            + dec(v.v_cell_min_mv as nat)
            + "mV tcmd="@
            + dec_int(v.torque_cmd as int)
            + " [ev23="@
            + bit_text(v.ev_2_3)
            + " t11="@
            + bit_text(v.t11_8_9)
            + " rtds="@
            + bit_text(v.rtds_active)
            + " preok="@
            + bit_text(v.ok_precharge)
            + " start="@
            + bit_text(v.start_button)
            + " dv="@
            + bit_text(v.dv_mode)
            + "]"@
        ),
{
}

/// The human line [`ecu_pedals_human_text`] describes, piece by piece: each label followed
/// by the rendering of the field it names, in order.
pub proof fn lemma_ecu_pedals_human_pieces(ts: u64, v: EcuPedalsFrame)
    ensures
        ecu_pedals_human_text(ts, v) == (
            ts_prefix(ts)
            + " pedals apps1="@
            + dec(v.apps1_raw as nat)
            + "("@
            + dec(v.apps1_pct as nat)
            + "%) apps2="@
            + dec(v.apps2_raw as nat)
            + "("@
            + dec(v.apps2_pct as nat)
            + "%) brake_raw="@
            + dec(v.brake_raw as nat)
        ),
{
}

/// The human line [`ecu_brake_human_text`] describes, piece by piece: each label followed
/// by the rendering of the field it names, in order.
pub proof fn lemma_ecu_brake_human_pieces(ts: u64, v: EcuBrakeFrame)
    ensures
        ecu_brake_human_text(ts, v) == (
            ts_prefix(ts)
            + " brake "@
            + tenths_text(v.brake_pressure_dbar as int)
            + "bar ("@
            + dec(v.brake_pct as nat)
            + "%)"@
        ),
{
}

/// The human line [`ecu_inverter_human_text`] describes, piece by piece: each label followed
/// by the rendering of the field it names, in order.
pub proof fn lemma_ecu_inverter_human_pieces(ts: u64, v: EcuInverterFrame)
    ensures
        ecu_inverter_human_text(ts, v) == (
            ts_prefix(ts)
            + " inv   vdc="@
            + dec(v.dc_bus_voltage as nat)
            + "V rpm="@
            + dec_int(v.inv_rpm as int)
            + " err=0x"@
            + hex_upper(v.inv_error as nat, 2)
        ),
{
}

/// The human line [`ecu_temps_human_text`] describes, piece by piece: each label followed
/// by the rendering of the field it names, in order.
pub proof fn lemma_ecu_temps_human_pieces(ts: u64, v: EcuInverterTempsFrame)
    ensures
        ecu_temps_human_text(ts, v) == (
            ts_prefix(ts)
            + " temps board="@
            + dec_int(v.board_degc as int)
            + "°C pwrstg="@
            + dec_int(v.pwrstg_degc as int)
            + "°C motor1="@
            + dec_int(v.motor1_degc as int)
            + "°C motor2="@
            + dec_int(v.motor2_degc as int)
            + "°C"@
        ),
{
}

/// The human line [`ecu_fw_human_text`] describes, piece by piece: each label followed
/// by the rendering of the field it names, in order.
pub proof fn lemma_ecu_fw_human_pieces(ts: u64, v: EcuFwInfoFrame)
    ensures
        ecu_fw_human_text(ts, v) == (
            ts_prefix(ts)
            + " fw    v"@
            + dec(v.fw_major as nat)
            + "."@
            + dec(v.fw_minor as nat)
            + "."@
            + dec(v.fw_patch as nat)
            + " git="@
            + hex_upper(v.git_hash@[0] as nat, 2)
            + hex_upper(v.git_hash@[1] as nat, 2)
            + hex_upper(v.git_hash@[2] as nat, 2)
            + hex_upper(v.git_hash@[3] as nat, 2)
        ),
{
}

/// The human line [`ecu_health_human_text`] describes, piece by piece: each label followed
/// by the rendering of the field it names, in order.
pub proof fn lemma_ecu_health_human_pieces(ts: u64, v: EcuHealthFrame)
    ensures
        ecu_health_human_text(ts, v) == (
            ts_prefix(ts)
            + " health heap="@
            + dec(v.free_heap as nat)
            + "/"@
            + dec(v.min_free_heap as nat)
            + " tasks[ctrl="@
            + bit_text(v.task_control)
            + " rx="@
            + bit_text(v.task_can_rx)
            + " tx="@
            + bit_text(v.task_can_tx)
            + " diag="@
            + bit_text(v.task_diag)
            + "] reset="@
            + ecu_reset_cause_debug(v.reset_cause)
            + " uptime="@
            + dec(v.uptime_s as nat)
            + "s last_fault=0x"@
            + hex_upper(v.last_fault as nat, 2)
        ),
{
}

/// The human line [`ecu_dv_human_text`] describes, piece by piece: each label followed
/// by the rendering of the field it names, in order.
pub proof fn lemma_ecu_dv_human_pieces(ts: u64, v: EcuDvFrame)
    ensures
        ecu_dv_human_text(ts, v) == (
            ts_prefix(ts)
            + " dv    mode_torque="@
            + dec(v.dv_torque_pct as nat)
            + "% rpm="@
            + dec_int(v.motor_rpm_mech as int)
            + " [r2d_req="@
            + bit_text(v.dv_r2d_req)
            + " cmd_fresh="@
            + bit_text(v.dv_cmd_fresh)
            + " ts="@
            + bit_text(v.ts_active)
            + " brk_lim="@
            + bit_text(v.brake_over_limit)
            + " r2d_ok="@
            + bit_text(v.r2d_confirm)
            + "]"@
        ),
{
}

/// The NDJSON object [`ecu_status_json_text`] describes, piece by piece: each label followed
/// by the rendering of the field it names, in order.
pub proof fn lemma_ecu_status_json_pieces(ts: u64, v: EcuStatusFrame)
    ensures
        ecu_status_json_text(ts, v) == (
            "{\"tsMs\":"@ + dec(ts as nat)
            + ",\"kind\":\"ecuStatus\",\"fsmState\":\""@
            + ecu_fsm_state_debug(v.fsm_state)
            + "\",\"invState\":\""@
            + ecu_inv_state_debug(v.inv_state)
            + "\",\"ev23\":"@
            + bool_text(v.ev_2_3)
            + ",\"t11_8_9\":"@
            + bool_text(v.t11_8_9)
            + ",\"rtdsActive\":"@
            + bool_text(v.rtds_active)
            + ",\"okPrecharge\":"@
            + bool_text(v.ok_precharge)
            + ",\"startButton\":"@
            + bool_text(v.start_button)
            + ",\"dvMode\":"@
            + bool_text(v.dv_mode)
            + ",\"torquePct\":"@
            + dec(v.torque_pct as nat)
            + ",\"vCellMinMv\":"@
            + dec(v.v_cell_min_mv as nat)
            + ",\"torqueCmd\":"@
            + dec_int(v.torque_cmd as int)
            + "}"@
        ),
{
}

/// The NDJSON object [`ecu_pedals_json_text`] describes, piece by piece: each label followed
/// by the rendering of the field it names, in order.
pub proof fn lemma_ecu_pedals_json_pieces(ts: u64, v: EcuPedalsFrame)
    ensures
        ecu_pedals_json_text(ts, v) == (
            "{\"tsMs\":"@ + dec(ts as nat)
            + ",\"kind\":\"ecuPedals\",\"apps1Raw\":"@
            + dec(v.apps1_raw as nat)
            + ",\"apps2Raw\":"@
            + dec(v.apps2_raw as nat)
            + ",\"brakeRaw\":"@
            + dec(v.brake_raw as nat)
            + ",\"apps1Pct\":"@
            + dec(v.apps1_pct as nat)
            + ",\"apps2Pct\":"@
            + dec(v.apps2_pct as nat)
            + "}"@
        ),
{
}

/// The NDJSON object [`ecu_brake_json_text`] describes, piece by piece: each label followed
/// by the rendering of the field it names, in order.
pub proof fn lemma_ecu_brake_json_pieces(ts: u64, v: EcuBrakeFrame)
    ensures
        ecu_brake_json_text(ts, v) == (
            "{\"tsMs\":"@ + dec(ts as nat)
            + ",\"kind\":\"ecuBrake\",\"brakePressureDbar\":"@
            + dec(v.brake_pressure_dbar as nat)
            + ",\"brakePct\":"@
            + dec(v.brake_pct as nat)
            + "}"@
        ),
{
}

/// The NDJSON object [`ecu_inverter_json_text`] describes, piece by piece: each label followed
/// by the rendering of the field it names, in order.
pub proof fn lemma_ecu_inverter_json_pieces(ts: u64, v: EcuInverterFrame)
    ensures
        ecu_inverter_json_text(ts, v) == (
            "{\"tsMs\":"@ + dec(ts as nat)
            + ",\"kind\":\"ecuInverter\",\"dcBusVoltage\":"@
            + dec(v.dc_bus_voltage as nat)
            + ",\"invRpm\":"@
            + dec_int(v.inv_rpm as int)
            + ",\"invError\":"@
            + dec(v.inv_error as nat)
            + "}"@
        ),
{
}

/// The NDJSON object [`ecu_temps_json_text`] describes, piece by piece: each label followed
/// by the rendering of the field it names, in order.
pub proof fn lemma_ecu_temps_json_pieces(ts: u64, v: EcuInverterTempsFrame)
    ensures
        ecu_temps_json_text(ts, v) == (
            "{\"tsMs\":"@ + dec(ts as nat)
            + ",\"kind\":\"ecuInverterTemps\",\"boardDegc\":"@
            + dec_int(v.board_degc as int)
            + ",\"pwrstgDegc\":"@
            + dec_int(v.pwrstg_degc as int)
            + ",\"motor1Degc\":"@
            + dec_int(v.motor1_degc as int)
            + ",\"motor2Degc\":"@
            + dec_int(v.motor2_degc as int)
            + "}"@
        ),
{
}

/// The NDJSON object [`ecu_fw_json_text`] describes, piece by piece: each label followed
/// by the rendering of the field it names, in order.
pub proof fn lemma_ecu_fw_json_pieces(ts: u64, v: EcuFwInfoFrame)
    ensures
        ecu_fw_json_text(ts, v) == (
            "{\"tsMs\":"@ + dec(ts as nat)
            + ",\"kind\":\"ecuFwInfo\",\"fwMajor\":"@
            + dec(v.fw_major as nat)
            + ",\"fwMinor\":"@
            + dec(v.fw_minor as nat)
            + ",\"fwPatch\":"@
            + dec(v.fw_patch as nat)
            + ",\"gitHash\":["@
            + dec(v.git_hash@[0] as nat)
            + ","@
            + dec(v.git_hash@[1] as nat)
            + ","@
            + dec(v.git_hash@[2] as nat)
            + ","@
            + dec(v.git_hash@[3] as nat)
            + "]}"@
        ),
{
}

/// The NDJSON object [`ecu_health_json_text`] describes, piece by piece: each label followed
/// by the rendering of the field it names, in order.
pub proof fn lemma_ecu_health_json_pieces(ts: u64, v: EcuHealthFrame)
    ensures
        ecu_health_json_text(ts, v) == (
            "{\"tsMs\":"@ + dec(ts as nat)
            + ",\"kind\":\"ecuHealth\",\"freeHeap\":"@
            + dec(v.free_heap as nat)
            + ",\"minFreeHeap\":"@
            + dec(v.min_free_heap as nat)
            + ",\"taskControl\":"@
            + bool_text(v.task_control)
            + ",\"taskCanRx\":"@
            + bool_text(v.task_can_rx)
            + ",\"taskCanTx\":"@
            + bool_text(v.task_can_tx)
            + ",\"taskDiag\":"@
            + bool_text(v.task_diag)
            + ",\"resetCause\":\""@
            + ecu_reset_cause_debug(v.reset_cause)
            + "\",\"uptimeS\":"@
            + dec(v.uptime_s as nat)
            + ",\"lastFault\":"@
            + dec(v.last_fault as nat)
            + "}"@
        ),
{
}

/// The NDJSON object [`ecu_dv_json_text`] describes, piece by piece: each label followed
/// by the rendering of the field it names, in order.
pub proof fn lemma_ecu_dv_json_pieces(ts: u64, v: EcuDvFrame)
    ensures
        ecu_dv_json_text(ts, v) == (
            "{\"tsMs\":"@ + dec(ts as nat)
            + ",\"kind\":\"ecuDv\",\"dvR2dReq\":"@
            + bool_text(v.dv_r2d_req)
            + ",\"dvCmdFresh\":"@
            + bool_text(v.dv_cmd_fresh)
            + ",\"tsActive\":"@
            + bool_text(v.ts_active)
            + ",\"brakeOverLimit\":"@
            + bool_text(v.brake_over_limit)
            + ",\"r2dConfirm\":"@
            + bool_text(v.r2d_confirm)
            + ",\"dvTorquePct\":"@
            + dec(v.dv_torque_pct as nat)
            + ",\"motorRpmMech\":"@
            + dec_int(v.motor_rpm_mech as int)
            + "}"@
        ),
{
}

/// The human line [`udv_status_human_text`] describes, piece by piece: each label followed
/// by the rendering of the field it names, in order.
pub proof fn lemma_udv_status_human_pieces(ts: u64, v: UdvStatusFrame)
    ensures
        udv_status_human_text(ts, v) == (
            ts_prefix(ts)
            + " status as="@
            + udv_as_state_debug(v.as_state)
            + " sig=0x"@
            + hex_upper(v.signals as nat, 4)
            + " mission="@
            + dec_int(v.mission_id as int)
            + " ebs="@
            + udv_ebs_init_debug(v.ebs_init)
            + " assi="@
            + udv_assi_debug(v.assi)
            + " armed="@
            + bit_text(v.diag_armed)
        ),
{
}

/// The human line [`udv_res_human_text`] describes, piece by piece: each label followed
/// by the rendering of the field it names, in order.
pub proof fn lemma_udv_res_human_pieces(ts: u64, v: UdvResFrame)
    ensures
        udv_res_human_text(ts, v) == (
            ts_prefix(ts)
            + " res    status="@
            + udv_res_status_debug(v.res_status)
            + " bits=0x"@
            + hex_upper(v.bits as nat, 2)
            + " radio="@
            + dec(v.radio_quality as nat)
            + " age="@
            + dec(v.res_age_ms as nat)
            + "ms steer="@
            + udv_steer_motor_debug(v.steer_motor)
            + " raw191=0x"@
            + hex_upper(v.raw_0x191 as nat, 2)
        ),
{
}

/// The human line [`udv_pipe_human_text`] describes, piece by piece: each label followed
/// by the rendering of the field it names, in order.
pub proof fn lemma_udv_pipe_human_pieces(ts: u64, v: UdvPipeFrame)
    ensures
        udv_pipe_human_text(ts, v) == (
            ts_prefix(ts)
            + " pipe   dv=0x"@
            + hex_upper(v.dv_status as nat, 2)
            + " accel="@
            + dec_int(v.accel_cmd_pct as int)
            + "% steer="@
            + dec_int(v.steer_cmd as int)
            + " dv_age="@
            + dec(v.dv_age_ms as nat)
            + "ms ctrl_age="@
            + dec(v.ctrl_age_ms as nat)
            + "ms setup=0x"@
            + hex_upper(v.setup_bits as nat, 2)
        ),
{
}

/// The human line [`udv_health_human_text`] describes, piece by piece: each label followed
/// by the rendering of the field it names, in order.
pub proof fn lemma_udv_health_human_pieces(ts: u64, v: UdvHealthFrame)
    ensures
        udv_health_human_text(ts, v) == (
            ts_prefix(ts)
            + " health heap="@
            + dec(v.free_heap_words as nat)
            + "/"@
            + dec(v.min_free_heap_words as nat)
            + "w tasks=0x"@
            + hex_upper(v.task_mask as nat, 2)
            + " flags=0x"@
            + hex_upper(v.flags as nat, 2)
            + " stalled="@
            + dec_int(v.stalled_task as int)
            + " uptime="@
            + dec(v.uptime_s as nat)
            + "s"@
        ),
{
}

/// The human line [`udv_fw_human_text`] describes, piece by piece: each label followed
/// by the rendering of the field it names, in order.
pub proof fn lemma_udv_fw_human_pieces(ts: u64, v: UdvFwInfoFrame)
    ensures
        udv_fw_human_text(ts, v) == (
            ts_prefix(ts)
            + " fw     git="@
            + hex_upper(v.git_hash as nat, 8)
            + " stub=0x"@
            + hex_upper(v.stub_mask as nat, 2)
            + " heap="@
            + dec(v.heap_size_kb as nat)
            + "KB uptime="@
            + dec(v.uptime_s as nat)
            + "s"@
        ),
{
}

/// The human line [`udv_can_human_text`] describes, piece by piece: each label followed
/// by the rendering of the field it names, in order.
pub proof fn lemma_udv_can_human_pieces(ts: u64, v: UdvCanHealthFrame)
    ensures
        udv_can_human_text(ts, v) == (
            ts_prefix(ts)
            + " canhlt flags=0x"@
            + hex_upper(v.flags as nat, 2)
            + " lec="@
            + dec(v.last_error_code as nat)
            + " tec="@
            + dec(v.tx_err_count as nat)
            + " rec="@
            + dec(v.rx_err_count as nat)
            + " res_rx="@
            + dec(v.res_rx_count as nat)
            + " nmt="@
            + dec(v.nmt_count as nat)
            + " ack_err="@
            + bit_text(v.ack_error)
        ),
{
}

/// The human line [`udv_calib_human_text`] describes, piece by piece: each label followed
/// by the rendering of the field it names, in order.
pub proof fn lemma_udv_calib_human_pieces(ts: u64, v: UdvCalibFrame)
    ensures
        udv_calib_human_text(ts, v) == (
            ts_prefix(ts)
            + " calib  phase="@
            + dec(v.phase as nat)
            + " ("@
            + calib_phase_text(v.phase)
            + ") error="@
            + dec(v.error as nat)
            + " ("@
            + calib_error_text(v.error)
            + ") center="@
            + tenths_text(v.center_ddeg as int)
            + "° half="@
            + tenths_text(v.half_range_ddeg as int)
            + "° limit="@
            + tenths_text(v.limit_ddeg as int)
            + "°"@
        ),
{
}

/// The NDJSON object [`udv_status_json_text`] describes, piece by piece: each label followed
/// by the rendering of the field it names, in order.
pub proof fn lemma_udv_status_json_pieces(ts: u64, v: UdvStatusFrame)
    ensures
        udv_status_json_text(ts, v) == (
            "{\"tsMs\":"@ + dec(ts as nat)
            + ",\"kind\":\"udvStatus\",\"asState\":\""@
            + udv_as_state_debug(v.as_state)
            + "\",\"signals\":"@
            + dec(v.signals as nat)
            + ",\"missionId\":"@
            + dec_int(v.mission_id as int)
            + ",\"ebsInit\":\""@
            + udv_ebs_init_debug(v.ebs_init)
            + "\",\"stubMask\":"@
            + dec(v.stub_mask as nat)
            + ",\"assi\":\""@
            + udv_assi_debug(v.assi)
            + "\",\"diagArmed\":"@
            + bool_text(v.diag_armed)
            + "}"@
        ),
{
}

/// The NDJSON object [`udv_res_json_text`] describes, piece by piece: each label followed
/// by the rendering of the field it names, in order.
pub proof fn lemma_udv_res_json_pieces(ts: u64, v: UdvResFrame)
    ensures
        udv_res_json_text(ts, v) == (
            "{\"tsMs\":"@ + dec(ts as nat)
            + ",\"kind\":\"udvRes\",\"raw0x191\":"@
            + dec(v.raw_0x191 as nat)
            + ",\"resStatus\":\""@
            + udv_res_status_debug(v.res_status)
            + "\",\"bits\":"@
            + dec(v.bits as nat)
            + ",\"radioQuality\":"@
            + dec(v.radio_quality as nat)
            + ",\"resAgeMs\":"@
            + dec(v.res_age_ms as nat)
            + ",\"steerMotor\":\""@
            + udv_steer_motor_debug(v.steer_motor)
            + "\",\"lwsStatus\":"@
            + dec(v.lws_status as nat)
            + "}"@
        ),
{
}

/// The NDJSON object [`udv_pipe_json_text`] describes, piece by piece: each label followed
/// by the rendering of the field it names, in order.
pub proof fn lemma_udv_pipe_json_pieces(ts: u64, v: UdvPipeFrame)
    ensures
        udv_pipe_json_text(ts, v) == (
            "{\"tsMs\":"@ + dec(ts as nat)
            + ",\"kind\":\"udvPipe\",\"dvStatus\":"@
            + dec(v.dv_status as nat)
            + ",\"dvAgeMs\":"@
            + dec(v.dv_age_ms as nat)
            + ",\"accelCmdPct\":"@
            + dec_int(v.accel_cmd_pct as int)
            + ",\"steerCmd\":"@
            + dec_int(v.steer_cmd as int)
            + ",\"ctrlAgeMs\":"@
            + dec(v.ctrl_age_ms as nat)
            + ",\"setupBits\":"@
            + dec(v.setup_bits as nat)
            + "}"@
        ),
{
}

/// The NDJSON object [`udv_health_json_text`] describes, piece by piece: each label followed
/// by the rendering of the field it names, in order.
pub proof fn lemma_udv_health_json_pieces(ts: u64, v: UdvHealthFrame)
    ensures
        udv_health_json_text(ts, v) == (
            "{\"tsMs\":"@ + dec(ts as nat)
            + ",\"kind\":\"udvHealth\",\"freeHeapWords\":"@
            + dec(v.free_heap_words as nat)
            + ",\"minFreeHeapWords\":"@
            + dec(v.min_free_heap_words as nat)
            + ",\"taskMask\":"@
            + dec(v.task_mask as nat)
            + ",\"flags\":"@
            + dec(v.flags as nat)
            + ",\"stalledTask\":"@
            + dec_int(v.stalled_task as int)
            + ",\"uptimeS\":"@
            + dec(v.uptime_s as nat)
            + "}"@
        ),
{
}

/// The NDJSON object [`udv_fw_json_text`] describes, piece by piece: each label followed
/// by the rendering of the field it names, in order.
pub proof fn lemma_udv_fw_json_pieces(ts: u64, v: UdvFwInfoFrame)
    ensures
        udv_fw_json_text(ts, v) == (
            "{\"tsMs\":"@ + dec(ts as nat)
            + ",\"kind\":\"udvFwInfo\",\"gitHash\":"@
            + dec(v.git_hash as nat)
            + ",\"stubMask\":"@
            + dec(v.stub_mask as nat)
            + ",\"heapSizeKb\":"@
            + dec(v.heap_size_kb as nat)
            + ",\"uptimeS\":"@
            + dec(v.uptime_s as nat)
            + "}"@
        ),
{
}

/// The NDJSON object [`udv_can_json_text`] describes, piece by piece: each label followed
/// by the rendering of the field it names, in order.
pub proof fn lemma_udv_can_json_pieces(ts: u64, v: UdvCanHealthFrame)
    ensures
        udv_can_json_text(ts, v) == (
            "{\"tsMs\":"@ + dec(ts as nat)
            + ",\"kind\":\"udvCanHealth\",\"flags\":"@
            + dec(v.flags as nat)
            + ",\"lastErrorCode\":"@
            + dec(v.last_error_code as nat)
            + ",\"txErrCount\":"@
            + dec(v.tx_err_count as nat)
            + ",\"rxErrCount\":"@
            + dec(v.rx_err_count as nat)
            + ",\"resRxCount\":"@
            + dec(v.res_rx_count as nat)
            + ",\"nmtCount\":"@
            + dec(v.nmt_count as nat)
            + ",\"ackError\":"@
            + bool_text(v.ack_error)
            + "}"@
        ),
{
}

/// The NDJSON object [`udv_calib_json_text`] describes, piece by piece: each label followed
/// by the rendering of the field it names, in order.
pub proof fn lemma_udv_calib_json_pieces(ts: u64, v: UdvCalibFrame)
    ensures
        udv_calib_json_text(ts, v) == (
            "{\"tsMs\":"@ + dec(ts as nat)
            + ",\"kind\":\"udvCalib\",\"phase\":"@
            + dec(v.phase as nat)
            + ",\"error\":"@
            + dec(v.error as nat)
            + ",\"centerDdeg\":"@
            + dec_int(v.center_ddeg as int)
            + ",\"halfRangeDdeg\":"@
            + dec_int(v.half_range_ddeg as int)
            + ",\"limitDdeg\":"@
            + dec_int(v.limit_ddeg as int)
            + "}"@
        ),
{
}

/// A poll-timing frame as the terminal shows it: the big-endian word in
/// payload bytes 0..2 (the last cell-voltage poll) follows `v_last=`, the
/// one in bytes 2..4 (the worst poll) follows `v_worst=`, and the
/// little-endian word in bytes 4..8 follows `tsweep_fail=0x`.
pub proof fn lemma_poll_timing_line(ts: u64, p: Seq<u8>)
    requires
        p.len() >= 8,
    ensures
        match decode_spec(AMS_POLL_TIMING_ID, p) {
            Some(r) => record_human_text(ts, r) == ts_prefix(ts)
                + " poll  v_last="@
                + pad_left(dec((p[0] * 256 + p[1]) as nat), 4, ' ')
                + "ms v_worst="@
                + pad_left(dec((p[2] * 256 + p[3]) as nat), 4, ' ')
                + "ms tsweep_fail=0x"@
                + hex_upper((p[4] + p[5] * 0x100 + p[6] * 0x1_0000 + p[7] * 0x100_0000) as nat, 8),
            None => false,
        },
{
    crate::pit_diag::layout::lemma_ams_poll_timing_layout(p);
}

} // verus!
