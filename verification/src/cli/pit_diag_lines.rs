//! The lines `cf pit-diag stream` / `listen` print for each decoded frame:
//! a human-readable form (timestamp prefix, fixed-width columns) and an
//! NDJSON form whose `kind` names match the desktop front-end's events.
//! Every renderer is specified character by character over `Seq<char>`.
use vstd::prelude::*;
use crate::pit_diag::ecu::{
    EcuBrakeFrame, EcuDvFrame, EcuFwInfoFrame, EcuHealthFrame, EcuInverterFrame,
    EcuInverterTempsFrame, EcuPedalsFrame, EcuPitDiagFrame, EcuStatusFrame,
};
use crate::pit_diag::names::{
    ecu_fsm_state_debug, ecu_inv_state_debug, ecu_reset_cause_debug, fault_reason_debug,
    fsm_state_debug, jump_reason_debug, mode_lock_debug, push_ecu_fsm_state_debug,
    push_ecu_inv_state_debug, push_ecu_reset_cause_debug, push_fault_reason_debug,
    push_fsm_state_debug, push_jump_reason_debug, push_mode_lock_debug, push_udv_as_state_debug,
    push_udv_assi_debug, push_udv_ebs_init_debug, push_udv_res_status_debug,
    push_udv_steer_motor_debug, udv_as_state_debug, udv_assi_debug, udv_ebs_init_debug,
    udv_res_status_debug, udv_steer_motor_debug,
};
use crate::pit_diag::udv::{
    calib_error_name, calib_error_text, calib_phase_name, calib_phase_text, UdvCalibFrame,
    UdvCanHealthFrame, UdvFwInfoFrame, UdvHealthFrame, UdvPipeFrame, UdvPitDiagFrame, UdvResFrame,
    UdvStatusFrame,
};
use crate::pit_diag::{
    BalanceMaskAFrame, BalanceMaskBFrame, BootDiagFrame, CellVoltageFrame, FaultReason,
    FsmStatusFrame, FwIdFrame, NtcTempFrame, PerIcPecFrame, PitDiagFrame, PollTimingFrame,
    PostMortemFrame,
};
use crate::text::{
    bit_text, bool_text, dec, dec_int, hex_upper, join_dec, pad_left, push_bit, push_bool,
    push_dec, push_dec_right, push_hex_upper, push_int, push_int_right, push_join_dec,
    push_tenths, tenths_text,
};

verus! {

/// Seconds with millisecond precision: `ts_ms / 1000`, a point, three digits.
pub open spec fn secs_text(ts_ms: u64) -> Seq<char> {
    dec((ts_ms / 1000) as nat) + "."@ + pad_left(dec((ts_ms % 1000) as nat), 3, '0')
}

/// The `[+  12.345s]` prefix of every human line (`{:>7.3}` of seconds).
pub open spec fn ts_prefix(ts_ms: u64) -> Seq<char> {
    "[+"@ + pad_left(secs_text(ts_ms), 7, ' ') + "s]"@
}

fn push_ts_prefix(s: &mut String, ts_ms: u64)
    ensures
        final(s)@ == old(s)@ + ts_prefix(ts_ms),
{
    let mut t = String::new();
    push_dec(&mut t, ts_ms / 1000);
    assert(t@ =~= dec((ts_ms / 1000) as nat));
    t.append(".");
    crate::text::push_padded(&mut t, ts_ms % 1000, 10, true, 3, '0');
    s.append("[+");
    crate::text::push_right_aligned(s, t.as_str(), 7);
    s.append("s]");
    assert(s@ =~= old(s)@ + ts_prefix(ts_ms));
}

/// The fault columns of the FSM line: empty while no fault is latched.
pub open spec fn fault_suffix(reason: FaultReason, detail: u8) -> Seq<char> {
    if reason is NoFault {
        Seq::empty()
    } else {
        " fault="@ + fault_reason_debug(reason) + " detail="@ + dec(detail as nat)
    }
}

fn push_fault_suffix(s: &mut String, reason: FaultReason, detail: u8)
    ensures
        final(s)@ == old(s)@ + fault_suffix(reason, detail),
{
    if let FaultReason::NoFault = reason {
        assert(s@ =~= old(s)@ + fault_suffix(reason, detail));
    } else {
        s.append(" fault=");
        push_fault_reason_debug(s, reason);
        s.append(" detail=");
        push_dec(s, detail as u64);
        assert(s@ =~= old(s)@ + fault_suffix(reason, detail));
    }
}

/// How many of a PEC frame's eight counts are listed (`valid`, at most 8).
pub open spec fn valid_count(valid: u8) -> int {
    if valid <= 8 {
        valid as int
    } else {
        8
    }
}

fn valid_len(valid: u8) -> (n: usize)
    ensures
        n == valid_count(valid),
{
    if valid <= 8 {
        valid as usize
    } else {
        8
    }
}

/// Human line for an arm/disarm acknowledgement.
pub open spec fn ams_ack_human_text(ts: u64, enabled: bool) -> Seq<char> {
    ts_prefix(ts)
        + " ack enabled="@
        + bool_text(enabled)
}

/// Render [`ams_ack_human_text`].
fn ams_ack_human(ts: u64, enabled: bool) -> (s: String)
    ensures
        s@ == ams_ack_human_text(ts, enabled),
{
    let mut s = String::new();
    push_ts_prefix(&mut s, ts);
    assert(s@ =~= ts_prefix(ts));
    s.append(" ack enabled=");
    push_bool(&mut s, enabled);
    s
}

/// Human line for a cell-voltage frame.
pub open spec fn ams_cell_human_text(ts: u64, c: CellVoltageFrame) -> Seq<char> {
    ts_prefix(ts)
        + " cell  frame="@
        + pad_left(dec(c.frame_idx as nat), 2, ' ')
        + " cells["@
        + pad_left(dec(c.first_cell as nat), 2, ' ')
        + ".."@
        + pad_left(dec((c.first_cell + 4) as nat), 2, ' ')
        + "] = "@
        + pad_left(dec(c.voltages_mv@[0] as nat), 4, ' ')
        + " "@
        + pad_left(dec(c.voltages_mv@[1] as nat), 4, ' ')
        + " "@
        + pad_left(dec(c.voltages_mv@[2] as nat), 4, ' ')
        + " "@
        + pad_left(dec(c.voltages_mv@[3] as nat), 4, ' ')
        + " mV"@
}

/// Render [`ams_cell_human_text`].
fn ams_cell_human(ts: u64, c: CellVoltageFrame) -> (s: String)
    ensures
        s@ == ams_cell_human_text(ts, c),
{
    let mut s = String::new();
    push_ts_prefix(&mut s, ts);
    assert(s@ =~= ts_prefix(ts));
    s.append(" cell  frame=");
    push_dec_right(&mut s, c.frame_idx as u64, 2);
    s.append(" cells[");
    push_dec_right(&mut s, c.first_cell as u64, 2);
    s.append("..");
    push_dec_right(&mut s, c.first_cell as u64 + 4 as u64, 2);
    s.append("] = ");
    push_dec_right(&mut s, c.voltages_mv[0] as u64, 4);
    s.append(" ");
    push_dec_right(&mut s, c.voltages_mv[1] as u64, 4);
    s.append(" ");
    push_dec_right(&mut s, c.voltages_mv[2] as u64, 4);
    s.append(" ");
    push_dec_right(&mut s, c.voltages_mv[3] as u64, 4);
    s.append(" mV");
    s
}

/// Human line for an NTC-temperature frame.
pub open spec fn ams_ntc_human_text(ts: u64, t: NtcTempFrame) -> Seq<char> {
    ts_prefix(ts)
        + " ntc   frame="@
        + pad_left(dec(t.frame_idx as nat), 2, ' ')
        + " ntcs["@
        + pad_left(dec(t.first_ntc as nat), 3, ' ')
        + ".."@
        + pad_left(dec((t.first_ntc + 8) as nat), 3, ' ')
        + "] = "@
        + pad_left(dec_int(t.temps_c@[0] as int), 4, ' ')
        + " "@
        + pad_left(dec_int(t.temps_c@[1] as int), 4, ' ')
        + " "@
        + pad_left(dec_int(t.temps_c@[2] as int), 4, ' ')
        + " "@
        + pad_left(dec_int(t.temps_c@[3] as int), 4, ' ')
        + " "@
        + pad_left(dec_int(t.temps_c@[4] as int), 4, ' ')
        + " "@
        + pad_left(dec_int(t.temps_c@[5] as int), 4, ' ')
        + " "@
        + pad_left(dec_int(t.temps_c@[6] as int), 4, ' ')
        + " "@
        + pad_left(dec_int(t.temps_c@[7] as int), 4, ' ')
        + " °C"@
}

/// Render [`ams_ntc_human_text`].
fn ams_ntc_human(ts: u64, t: NtcTempFrame) -> (s: String)
    ensures
        s@ == ams_ntc_human_text(ts, t),
{
    let mut s = String::new();
    push_ts_prefix(&mut s, ts);
    assert(s@ =~= ts_prefix(ts));
    s.append(" ntc   frame=");
    push_dec_right(&mut s, t.frame_idx as u64, 2);
    s.append(" ntcs[");
    push_dec_right(&mut s, t.first_ntc as u64, 3);
    s.append("..");
    push_dec_right(&mut s, t.first_ntc as u64 + 8 as u64, 3);
    s.append("] = ");
    push_int_right(&mut s, t.temps_c[0] as i64, 4);
    s.append(" ");
    push_int_right(&mut s, t.temps_c[1] as i64, 4);
    s.append(" ");
    push_int_right(&mut s, t.temps_c[2] as i64, 4);
    s.append(" ");
    push_int_right(&mut s, t.temps_c[3] as i64, 4);
    s.append(" ");
    push_int_right(&mut s, t.temps_c[4] as i64, 4);
    s.append(" ");
    push_int_right(&mut s, t.temps_c[5] as i64, 4);
    s.append(" ");
    push_int_right(&mut s, t.temps_c[6] as i64, 4);
    s.append(" ");
    push_int_right(&mut s, t.temps_c[7] as i64, 4);
    s.append(" °C");
    s
}

/// Human line for an FSM-status frame; the fault columns appear only while a fault is latched.
pub open spec fn ams_fsm_human_text(ts: u64, f: FsmStatusFrame) -> Seq<char> {
    ts_prefix(ts)
        + " fsm   state="@
        + fsm_state_debug(f.state)
        + " mode="@
        + mode_lock_debug(f.mode_locked)
        + " tsms="@
        + bit_text(f.tsms)
        + " dash="@
        + bit_text(f.dash_chg)
        + " ams_ok="@
        + bit_text(f.ams_ok)
        + " pec="@
        + dec(f.pec_error_total as nat)
        + fault_suffix(f.fault_reason, f.fault_detail)
}

/// Render [`ams_fsm_human_text`].
fn ams_fsm_human(ts: u64, f: FsmStatusFrame) -> (s: String)
    ensures
        s@ == ams_fsm_human_text(ts, f),
{
    let mut s = String::new();
    push_ts_prefix(&mut s, ts);
    assert(s@ =~= ts_prefix(ts));
    s.append(" fsm   state=");
    push_fsm_state_debug(&mut s, f.state);
    s.append(" mode=");
    push_mode_lock_debug(&mut s, f.mode_locked);
    s.append(" tsms=");
    push_bit(&mut s, f.tsms);
    s.append(" dash=");
    push_bit(&mut s, f.dash_chg);
    s.append(" ams_ok=");
    push_bit(&mut s, f.ams_ok);
    s.append(" pec=");
    push_dec(&mut s, f.pec_error_total as u64);
    push_fault_suffix(&mut s, f.fault_reason, f.fault_detail);
    s
}

/// Human line for a poll-timing frame.
pub open spec fn ams_poll_human_text(ts: u64, p: PollTimingFrame) -> Seq<char> {
    ts_prefix(ts)
        + " poll  v_last="@
        + pad_left(dec(p.last_v_poll_ms as nat), 4, ' ')
        + "ms v_worst="@
        + pad_left(dec(p.worst_v_poll_ms as nat), 4, ' ')
        + "ms tsweep_fail=0x"@
        + hex_upper(p.t_sweep_fail_mask as nat, 8)
}

/// Render [`ams_poll_human_text`].
fn ams_poll_human(ts: u64, p: PollTimingFrame) -> (s: String)
    ensures
        s@ == ams_poll_human_text(ts, p),
{
    let mut s = String::new();
    push_ts_prefix(&mut s, ts);
    assert(s@ =~= ts_prefix(ts));
    s.append(" poll  v_last=");
    push_dec_right(&mut s, p.last_v_poll_ms as u64, 4);
    s.append("ms v_worst=");
    push_dec_right(&mut s, p.worst_v_poll_ms as u64, 4);
    s.append("ms tsweep_fail=0x");
    push_hex_upper(&mut s, p.t_sweep_fail_mask as u64, 8);
    s
}

/// Human line for balance mask A.
pub open spec fn ams_bal_a_human_text(ts: u64, b: BalanceMaskAFrame) -> Seq<char> {
    ts_prefix(ts)
        + " bal-a cells[ 0..63] dcc=0x"@
        + hex_upper(b.dcc_lo as nat, 16)
}

/// Render [`ams_bal_a_human_text`].
fn ams_bal_a_human(ts: u64, b: BalanceMaskAFrame) -> (s: String)
    ensures
        s@ == ams_bal_a_human_text(ts, b),
{
    let mut s = String::new();
    push_ts_prefix(&mut s, ts);
    assert(s@ =~= ts_prefix(ts));
    s.append(" bal-a cells[ 0..63] dcc=0x");
    push_hex_upper(&mut s, b.dcc_lo as u64, 16);
    s
}

/// Human line for balance mask B.
pub open spec fn ams_bal_b_human_text(ts: u64, b: BalanceMaskBFrame) -> Seq<char> {
    ts_prefix(ts)
        + " bal-b cells[64..94] dcc=0x"@
        + hex_upper(b.dcc_hi as nat, 8)
        + " cycles total="@
        + dec(b.cycles_total as nat)
        + " active="@
        + dec(b.cycles_active as nat)
}

/// Render [`ams_bal_b_human_text`].
fn ams_bal_b_human(ts: u64, b: BalanceMaskBFrame) -> (s: String)
    ensures
        s@ == ams_bal_b_human_text(ts, b),
{
    let mut s = String::new();
    push_ts_prefix(&mut s, ts);
    assert(s@ =~= ts_prefix(ts));
    s.append(" bal-b cells[64..94] dcc=0x");
    push_hex_upper(&mut s, b.dcc_hi as u64, 8);
    s.append(" cycles total=");
    push_dec(&mut s, b.cycles_total as u64);
    s.append(" active=");
    push_dec(&mut s, b.cycles_active as u64);
    s
}

/// Human line for a boot-diagnostics frame.
pub open spec fn ams_boot_human_text(ts: u64, b: BootDiagFrame) -> Seq<char> {
    ts_prefix(ts)
        + " boot  jump="@
        + jump_reason_debug(b.jump_reason)
        + " init_progress="@
        + dec(b.app_init_progress as nat)
        + "/7 fdcan_start=0x"@
        + hex_upper(b.fdcan1_start_result as nat, 6)
}

/// Render [`ams_boot_human_text`].
fn ams_boot_human(ts: u64, b: BootDiagFrame) -> (s: String)
    ensures
        s@ == ams_boot_human_text(ts, b),
{
    let mut s = String::new();
    push_ts_prefix(&mut s, ts);
    assert(s@ =~= ts_prefix(ts));
    s.append(" boot  jump=");
    push_jump_reason_debug(&mut s, b.jump_reason);
    s.append(" init_progress=");
    push_dec(&mut s, b.app_init_progress as u64);
    s.append("/7 fdcan_start=0x");
    push_hex_upper(&mut s, b.fdcan1_start_result as u64, 6);
    s
}

/// Human line for a post-mortem that recorded no fault.
pub open spec fn ams_crash_clean_human_text(ts: u64) -> Seq<char> {
    ts_prefix(ts)
        + " crash (clean — no fault on previous boot)"@
}

/// Render [`ams_crash_clean_human_text`].
fn ams_crash_clean_human(ts: u64) -> (s: String)
    ensures
        s@ == ams_crash_clean_human_text(ts),
{
    let mut s = String::new();
    push_ts_prefix(&mut s, ts);
    assert(s@ =~= ts_prefix(ts));
    s.append(" crash (clean — no fault on previous boot)");
    s
}

/// Human line for a post-mortem that recorded a fault.
pub open spec fn ams_crash_human_text(ts: u64, p: PostMortemFrame) -> Seq<char> {
    ts_prefix(ts)
        + " crash stack_overflow="@
        + bit_text(p.stack_overflow_seen)
        + " watermark="@
        + dec(p.watermark_low_byte as nat)
        + " task_addr=0x"@
        + hex_upper(p.task_addr_lo as nat, 8)
        + " malloc_fails="@
        + dec(p.malloc_failed_count as nat)
}

/// Render [`ams_crash_human_text`].
fn ams_crash_human(ts: u64, p: PostMortemFrame) -> (s: String)
    ensures
        s@ == ams_crash_human_text(ts, p),
{
    let mut s = String::new();
    push_ts_prefix(&mut s, ts);
    assert(s@ =~= ts_prefix(ts));
    s.append(" crash stack_overflow=");
    push_bit(&mut s, p.stack_overflow_seen);
    s.append(" watermark=");
    push_dec(&mut s, p.watermark_low_byte as u64);
    s.append(" task_addr=0x");
    push_hex_upper(&mut s, p.task_addr_lo as u64, 8);
    s.append(" malloc_fails=");
    push_dec(&mut s, p.malloc_failed_count as u64);
    s
}

/// Human line for a firmware-identity frame.
pub open spec fn ams_fw_human_text(ts: u64, f: FwIdFrame) -> Seq<char> {
    ts_prefix(ts)
        + " fw    v"@
        + dec(f.version_major as nat)
        + "."@
        + dec(f.version_minor as nat)
        + "."@
        + dec(f.version_patch as nat)
        + " git="@
        + hex_upper(f.git_hash@[0] as nat, 2)
        + hex_upper(f.git_hash@[1] as nat, 2)
        + hex_upper(f.git_hash@[2] as nat, 2)
        + hex_upper(f.git_hash@[3] as nat, 2)
        + " bl_node=0x"@
        + hex_upper(f.bl_node_id as nat, 2)
}

/// Render [`ams_fw_human_text`].
fn ams_fw_human(ts: u64, f: FwIdFrame) -> (s: String)
    ensures
        s@ == ams_fw_human_text(ts, f),
{
    let mut s = String::new();
    push_ts_prefix(&mut s, ts);
    assert(s@ =~= ts_prefix(ts));
    s.append(" fw    v");
    push_dec(&mut s, f.version_major as u64);
    s.append(".");
    push_dec(&mut s, f.version_minor as u64);
    s.append(".");
    push_dec(&mut s, f.version_patch as u64);
    s.append(" git=");
    push_hex_upper(&mut s, f.git_hash[0] as u64, 2);
    push_hex_upper(&mut s, f.git_hash[1] as u64, 2);
    push_hex_upper(&mut s, f.git_hash[2] as u64, 2);
    push_hex_upper(&mut s, f.git_hash[3] as u64, 2);
    s.append(" bl_node=0x");
    push_hex_upper(&mut s, f.bl_node_id as u64, 2);
    s
}

/// Human line for a per-IC PEC frame: only the `valid` counts are listed.
pub open spec fn ams_pec_human_text(ts: u64, p: PerIcPecFrame) -> Seq<char> {
    ts_prefix(ts)
        + " pec   ICs["@
        + pad_left(dec(p.first_ic as nat), 2, ' ')
        + ".."@
        + pad_left(dec((p.first_ic + p.valid) as nat), 2, ' ')
        + "] = "@
        + join_dec(p.counts@.take(valid_count(p.valid)), 3, " "@)
}

/// Render [`ams_pec_human_text`].
fn ams_pec_human(ts: u64, p: PerIcPecFrame) -> (s: String)
    ensures
        s@ == ams_pec_human_text(ts, p),
{
    let mut s = String::new();
    push_ts_prefix(&mut s, ts);
    assert(s@ =~= ts_prefix(ts));
    s.append(" pec   ICs[");
    push_dec_right(&mut s, p.first_ic as u64, 2);
    s.append("..");
    push_dec_right(&mut s, p.first_ic as u64 + p.valid as u64 as u64, 2);
    s.append("] = ");
    push_join_dec(&mut s, &p.counts, valid_len(p.valid), 3, " ");
    s
}

/// JSON line for an acknowledgement.
pub open spec fn ams_ack_json_text(ts: u64, enabled: bool) -> Seq<char> {
    "{\"tsMs\":"@ + dec(ts as nat)
        + ",\"kind\":\"ack\",\"enabled\":"@
        + bool_text(enabled)
        + "}"@
}

/// Render [`ams_ack_json_text`].
fn ams_ack_json(ts: u64, enabled: bool) -> (s: String)
    ensures
        s@ == ams_ack_json_text(ts, enabled),
{
    let mut s = String::new();
    s.append("{\"tsMs\":");
    push_dec(&mut s, ts as u64);
    assert(s@ =~= "{\"tsMs\":"@ + dec(ts as nat));
    s.append(",\"kind\":\"ack\",\"enabled\":");
    push_bool(&mut s, enabled);
    s.append("}");
    s
}

/// JSON line for a cell-voltage frame.
pub open spec fn ams_cell_json_text(ts: u64, c: CellVoltageFrame) -> Seq<char> {
    "{\"tsMs\":"@ + dec(ts as nat)
        + ",\"kind\":\"cellVoltage\",\"frameIdx\":"@
        + dec(c.frame_idx as nat)
        + ",\"firstCell\":"@
        + dec(c.first_cell as nat)
        + ",\"voltagesMv\":["@
        + dec(c.voltages_mv@[0] as nat)
        + ","@
        + dec(c.voltages_mv@[1] as nat)
        + ","@
        + dec(c.voltages_mv@[2] as nat)
        + ","@
        + dec(c.voltages_mv@[3] as nat)
        + "]}"@
}

/// Render [`ams_cell_json_text`].
fn ams_cell_json(ts: u64, c: CellVoltageFrame) -> (s: String)
    ensures
        s@ == ams_cell_json_text(ts, c),
{
    let mut s = String::new();
    s.append("{\"tsMs\":");
    push_dec(&mut s, ts as u64);
    assert(s@ =~= "{\"tsMs\":"@ + dec(ts as nat));
    s.append(",\"kind\":\"cellVoltage\",\"frameIdx\":");
    push_dec(&mut s, c.frame_idx as u64);
    s.append(",\"firstCell\":");
    push_dec(&mut s, c.first_cell as u64);
    s.append(",\"voltagesMv\":[");
    push_dec(&mut s, c.voltages_mv[0] as u64);
    s.append(",");
    push_dec(&mut s, c.voltages_mv[1] as u64);
    s.append(",");
    push_dec(&mut s, c.voltages_mv[2] as u64);
    s.append(",");
    push_dec(&mut s, c.voltages_mv[3] as u64);
    s.append("]}");
    s
}

/// JSON line for an NTC-temperature frame.
pub open spec fn ams_ntc_json_text(ts: u64, t: NtcTempFrame) -> Seq<char> {
    "{\"tsMs\":"@ + dec(ts as nat)
        + ",\"kind\":\"ntcTemp\",\"frameIdx\":"@
        + dec(t.frame_idx as nat)
        + ",\"firstNtc\":"@
        + dec(t.first_ntc as nat)
        + ",\"tempsC\":["@
        + dec_int(t.temps_c@[0] as int)
        + ","@
        + dec_int(t.temps_c@[1] as int)
        + ","@
        + dec_int(t.temps_c@[2] as int)
        + ","@
        + dec_int(t.temps_c@[3] as int)
        + ","@
        + dec_int(t.temps_c@[4] as int)
        + ","@
        + dec_int(t.temps_c@[5] as int)
        + ","@
        + dec_int(t.temps_c@[6] as int)
        + ","@
        + dec_int(t.temps_c@[7] as int)
        + "]}"@
}

/// Render [`ams_ntc_json_text`].
fn ams_ntc_json(ts: u64, t: NtcTempFrame) -> (s: String)
    ensures
        s@ == ams_ntc_json_text(ts, t),
{
    let mut s = String::new();
    s.append("{\"tsMs\":");
    push_dec(&mut s, ts as u64);
    assert(s@ =~= "{\"tsMs\":"@ + dec(ts as nat));
    s.append(",\"kind\":\"ntcTemp\",\"frameIdx\":");
    push_dec(&mut s, t.frame_idx as u64);
    s.append(",\"firstNtc\":");
    push_dec(&mut s, t.first_ntc as u64);
    s.append(",\"tempsC\":[");
    push_int(&mut s, t.temps_c[0] as i64);
    s.append(",");
    push_int(&mut s, t.temps_c[1] as i64);
    s.append(",");
    push_int(&mut s, t.temps_c[2] as i64);
    s.append(",");
    push_int(&mut s, t.temps_c[3] as i64);
    s.append(",");
    push_int(&mut s, t.temps_c[4] as i64);
    s.append(",");
    push_int(&mut s, t.temps_c[5] as i64);
    s.append(",");
    push_int(&mut s, t.temps_c[6] as i64);
    s.append(",");
    push_int(&mut s, t.temps_c[7] as i64);
    s.append("]}");
    s
}

/// JSON line for an FSM-status frame.
pub open spec fn ams_fsm_json_text(ts: u64, f: FsmStatusFrame) -> Seq<char> {
    "{\"tsMs\":"@ + dec(ts as nat)
        + ",\"kind\":\"fsmStatus\",\"state\":\""@
        + fsm_state_debug(f.state)
        + "\",\"modeLocked\":\""@
        + mode_lock_debug(f.mode_locked)
        + "\",\"tsms\":"@
        + bool_text(f.tsms)
        + ",\"dashChg\":"@
        + bool_text(f.dash_chg)
        + ",\"amsOk\":"@
        + bool_text(f.ams_ok)
        + ",\"pecErrorTotal\":"@
        + dec(f.pec_error_total as nat)
        + ",\"faultReason\":\""@
        + fault_reason_debug(f.fault_reason)
        + "\",\"faultDetail\":"@
        + dec(f.fault_detail as nat)
        + "}"@
}

/// Render [`ams_fsm_json_text`].
fn ams_fsm_json(ts: u64, f: FsmStatusFrame) -> (s: String)
    ensures
        s@ == ams_fsm_json_text(ts, f),
{
    let mut s = String::new();
    s.append("{\"tsMs\":");
    push_dec(&mut s, ts as u64);
    assert(s@ =~= "{\"tsMs\":"@ + dec(ts as nat));
    s.append(",\"kind\":\"fsmStatus\",\"state\":\"");
    push_fsm_state_debug(&mut s, f.state);
    s.append("\",\"modeLocked\":\"");
    push_mode_lock_debug(&mut s, f.mode_locked);
    s.append("\",\"tsms\":");
    push_bool(&mut s, f.tsms);
    s.append(",\"dashChg\":");
    push_bool(&mut s, f.dash_chg);
    s.append(",\"amsOk\":");
    push_bool(&mut s, f.ams_ok);
    s.append(",\"pecErrorTotal\":");
    push_dec(&mut s, f.pec_error_total as u64);
    s.append(",\"faultReason\":\"");
    push_fault_reason_debug(&mut s, f.fault_reason);
    s.append("\",\"faultDetail\":");
    push_dec(&mut s, f.fault_detail as u64);
    s.append("}");
    s
}

/// JSON line for a poll-timing frame.
pub open spec fn ams_poll_json_text(ts: u64, p: PollTimingFrame) -> Seq<char> {
    "{\"tsMs\":"@ + dec(ts as nat)
        + ",\"kind\":\"pollTiming\",\"lastVPollMs\":"@
        + dec(p.last_v_poll_ms as nat)
        + ",\"worstVPollMs\":"@
        + dec(p.worst_v_poll_ms as nat)
        + ",\"tSweepFailMask\":"@
        + dec(p.t_sweep_fail_mask as nat)
        + "}"@
}

/// Render [`ams_poll_json_text`].
fn ams_poll_json(ts: u64, p: PollTimingFrame) -> (s: String)
    ensures
        s@ == ams_poll_json_text(ts, p),
{
    let mut s = String::new();
    s.append("{\"tsMs\":");
    push_dec(&mut s, ts as u64);
    assert(s@ =~= "{\"tsMs\":"@ + dec(ts as nat));
    s.append(",\"kind\":\"pollTiming\",\"lastVPollMs\":");
    push_dec(&mut s, p.last_v_poll_ms as u64);
    s.append(",\"worstVPollMs\":");
    push_dec(&mut s, p.worst_v_poll_ms as u64);
    s.append(",\"tSweepFailMask\":");
    push_dec(&mut s, p.t_sweep_fail_mask as u64);
    s.append("}");
    s
}

/// JSON line for balance mask A.
pub open spec fn ams_bal_a_json_text(ts: u64, b: BalanceMaskAFrame) -> Seq<char> {
    "{\"tsMs\":"@ + dec(ts as nat)
        + ",\"kind\":\"balanceMaskA\",\"dccLo\":"@
        + dec(b.dcc_lo as nat)
        + "}"@
}

/// Render [`ams_bal_a_json_text`].
fn ams_bal_a_json(ts: u64, b: BalanceMaskAFrame) -> (s: String)
    ensures
        s@ == ams_bal_a_json_text(ts, b),
{
    let mut s = String::new();
    s.append("{\"tsMs\":");
    push_dec(&mut s, ts as u64);
    assert(s@ =~= "{\"tsMs\":"@ + dec(ts as nat));
    s.append(",\"kind\":\"balanceMaskA\",\"dccLo\":");
    push_dec(&mut s, b.dcc_lo as u64);
    s.append("}");
    s
}

/// JSON line for balance mask B.
pub open spec fn ams_bal_b_json_text(ts: u64, b: BalanceMaskBFrame) -> Seq<char> {
    "{\"tsMs\":"@ + dec(ts as nat)
        + ",\"kind\":\"balanceMaskB\",\"dccHi\":"@
        + dec(b.dcc_hi as nat)
        + ",\"cyclesTotal\":"@
        + dec(b.cycles_total as nat)
        + ",\"cyclesActive\":"@
        + dec(b.cycles_active as nat)
        + "}"@
}

/// Render [`ams_bal_b_json_text`].
fn ams_bal_b_json(ts: u64, b: BalanceMaskBFrame) -> (s: String)
    ensures
        s@ == ams_bal_b_json_text(ts, b),
{
    let mut s = String::new();
    s.append("{\"tsMs\":");
    push_dec(&mut s, ts as u64);
    assert(s@ =~= "{\"tsMs\":"@ + dec(ts as nat));
    s.append(",\"kind\":\"balanceMaskB\",\"dccHi\":");
    push_dec(&mut s, b.dcc_hi as u64);
    s.append(",\"cyclesTotal\":");
    push_dec(&mut s, b.cycles_total as u64);
    s.append(",\"cyclesActive\":");
    push_dec(&mut s, b.cycles_active as u64);
    s.append("}");
    s
}

/// JSON line for a boot-diagnostics frame.
pub open spec fn ams_boot_json_text(ts: u64, b: BootDiagFrame) -> Seq<char> {
    "{\"tsMs\":"@ + dec(ts as nat)
        + ",\"kind\":\"bootDiag\",\"jumpReason\":\""@
        + jump_reason_debug(b.jump_reason)
        + "\",\"appInitProgress\":"@
        + dec(b.app_init_progress as nat)
        + ",\"fdcan1StartResult\":"@
        + dec(b.fdcan1_start_result as nat)
        + "}"@
}

/// Render [`ams_boot_json_text`].
fn ams_boot_json(ts: u64, b: BootDiagFrame) -> (s: String)
    ensures
        s@ == ams_boot_json_text(ts, b),
{
    let mut s = String::new();
    s.append("{\"tsMs\":");
    push_dec(&mut s, ts as u64);
    assert(s@ =~= "{\"tsMs\":"@ + dec(ts as nat));
    s.append(",\"kind\":\"bootDiag\",\"jumpReason\":\"");
    push_jump_reason_debug(&mut s, b.jump_reason);
    s.append("\",\"appInitProgress\":");
    push_dec(&mut s, b.app_init_progress as u64);
    s.append(",\"fdcan1StartResult\":");
    push_dec(&mut s, b.fdcan1_start_result as u64);
    s.append("}");
    s
}

/// JSON line for a post-mortem frame.
pub open spec fn ams_crash_json_text(ts: u64, p: PostMortemFrame) -> Seq<char> {
    "{\"tsMs\":"@ + dec(ts as nat)
        + ",\"kind\":\"postMortem\",\"stackOverflowSeen\":"@
        + bool_text(p.stack_overflow_seen)
        + ",\"watermarkLowByte\":"@
        + dec(p.watermark_low_byte as nat)
        + ",\"taskAddrLo\":"@
        + dec(p.task_addr_lo as nat)
        + ",\"mallocFailedCount\":"@
        + dec(p.malloc_failed_count as nat)
        + "}"@
}

/// Render [`ams_crash_json_text`].
fn ams_crash_json(ts: u64, p: PostMortemFrame) -> (s: String)
    ensures
        s@ == ams_crash_json_text(ts, p),
{
    let mut s = String::new();
    s.append("{\"tsMs\":");
    push_dec(&mut s, ts as u64);
    assert(s@ =~= "{\"tsMs\":"@ + dec(ts as nat));
    s.append(",\"kind\":\"postMortem\",\"stackOverflowSeen\":");
    push_bool(&mut s, p.stack_overflow_seen);
    s.append(",\"watermarkLowByte\":");
    push_dec(&mut s, p.watermark_low_byte as u64);
    s.append(",\"taskAddrLo\":");
    push_dec(&mut s, p.task_addr_lo as u64);
    s.append(",\"mallocFailedCount\":");
    push_dec(&mut s, p.malloc_failed_count as u64);
    s.append("}");
    s
}

/// JSON line for a firmware-identity frame.
pub open spec fn ams_fw_json_text(ts: u64, f: FwIdFrame) -> Seq<char> {
    "{\"tsMs\":"@ + dec(ts as nat)
        + ",\"kind\":\"fwId\",\"versionMajor\":"@
        + dec(f.version_major as nat)
        + ",\"versionMinor\":"@
        + dec(f.version_minor as nat)
        + ",\"versionPatch\":"@
        + dec(f.version_patch as nat)
        + ",\"gitHash\":["@
        + dec(f.git_hash@[0] as nat)
        + ","@
        + dec(f.git_hash@[1] as nat)
        + ","@
        + dec(f.git_hash@[2] as nat)
        + ","@
        + dec(f.git_hash@[3] as nat)
        + "],\"blNodeId\":"@
        + dec(f.bl_node_id as nat)
        + "}"@
}

/// Render [`ams_fw_json_text`].
fn ams_fw_json(ts: u64, f: FwIdFrame) -> (s: String)
    ensures
        s@ == ams_fw_json_text(ts, f),
{
    let mut s = String::new();
    s.append("{\"tsMs\":");
    push_dec(&mut s, ts as u64);
    assert(s@ =~= "{\"tsMs\":"@ + dec(ts as nat));
    s.append(",\"kind\":\"fwId\",\"versionMajor\":");
    push_dec(&mut s, f.version_major as u64);
    s.append(",\"versionMinor\":");
    push_dec(&mut s, f.version_minor as u64);
    s.append(",\"versionPatch\":");
    push_dec(&mut s, f.version_patch as u64);
    s.append(",\"gitHash\":[");
    push_dec(&mut s, f.git_hash[0] as u64);
    s.append(",");
    push_dec(&mut s, f.git_hash[1] as u64);
    s.append(",");
    push_dec(&mut s, f.git_hash[2] as u64);
    s.append(",");
    push_dec(&mut s, f.git_hash[3] as u64);
    s.append("],\"blNodeId\":");
    push_dec(&mut s, f.bl_node_id as u64);
    s.append("}");
    s
}

/// JSON line for a per-IC PEC frame: only the `valid` counts are listed.
pub open spec fn ams_pec_json_text(ts: u64, p: PerIcPecFrame) -> Seq<char> {
    "{\"tsMs\":"@ + dec(ts as nat)
        + ",\"kind\":\"perIcPec\",\"firstIc\":"@
        + dec(p.first_ic as nat)
        + ",\"valid\":"@
        + dec(p.valid as nat)
        + ",\"counts\":["@
        + join_dec(p.counts@.take(valid_count(p.valid)), 0, ","@)
        + "]}"@
}

/// Render [`ams_pec_json_text`].
fn ams_pec_json(ts: u64, p: PerIcPecFrame) -> (s: String)
    ensures
        s@ == ams_pec_json_text(ts, p),
{
    let mut s = String::new();
    s.append("{\"tsMs\":");
    push_dec(&mut s, ts as u64);
    assert(s@ =~= "{\"tsMs\":"@ + dec(ts as nat));
    s.append(",\"kind\":\"perIcPec\",\"firstIc\":");
    push_dec(&mut s, p.first_ic as u64);
    s.append(",\"valid\":");
    push_dec(&mut s, p.valid as u64);
    s.append(",\"counts\":[");
    push_join_dec(&mut s, &p.counts, valid_len(p.valid), 0, ",");
    s.append("]}");
    s
}

/// Human line for an ECU status frame.
pub open spec fn ecu_status_human_text(ts: u64, v: EcuStatusFrame) -> Seq<char> {
    ts_prefix(ts)
        + " status fsm="@
        + ecu_fsm_state_debug(v.fsm_state)
        + " inv="@
        + ecu_inv_state_debug(v.inv_state)
        + " torque="@
        + dec(v.torque_pct as nat)
        + "% vcell_min="@
        + dec(v.v_cell_min_mv as nat)
        + "mV tcmd="@
        + dec_int(v.torque_cmd as int)
        + " [ev23="@
        + bit_text(v.ev_2_3)
        + " t11="@
        + bit_text(v.t11_8_9)
        + " rtds="@
        + bit_text(v.rtds_active)
        + " preok="@
        + bit_text(v.ok_precharge)
        + " start="@
        + bit_text(v.start_button)
        + " dv="@
        + bit_text(v.dv_mode)
        + "]"@
}

/// Render [`ecu_status_human_text`].
fn ecu_status_human(ts: u64, v: EcuStatusFrame) -> (s: String)
    ensures
        s@ == ecu_status_human_text(ts, v),
{
    let mut s = String::new();
    push_ts_prefix(&mut s, ts);
    assert(s@ =~= ts_prefix(ts));
    s.append(" status fsm=");
    push_ecu_fsm_state_debug(&mut s, v.fsm_state);
    s.append(" inv=");
    push_ecu_inv_state_debug(&mut s, v.inv_state);
    s.append(" torque=");
    push_dec(&mut s, v.torque_pct as u64);
    s.append("% vcell_min=");
    push_dec(&mut s, v.v_cell_min_mv as u64);
    s.append("mV tcmd=");
    push_int(&mut s, v.torque_cmd as i64);
    s.append(" [ev23=");
    push_bit(&mut s, v.ev_2_3);
    s.append(" t11=");
    push_bit(&mut s, v.t11_8_9);
    s.append(" rtds=");
    push_bit(&mut s, v.rtds_active);
    s.append(" preok=");
    push_bit(&mut s, v.ok_precharge);
    s.append(" start=");
    push_bit(&mut s, v.start_button);
    s.append(" dv=");
    push_bit(&mut s, v.dv_mode);
    s.append("]");
    s
}

/// Human line for an ECU pedals frame.
pub open spec fn ecu_pedals_human_text(ts: u64, v: EcuPedalsFrame) -> Seq<char> {
    ts_prefix(ts)
        + " pedals apps1="@
        + dec(v.apps1_raw as nat)
        + "("@
        + dec(v.apps1_pct as nat)
        + "%) apps2="@
        + dec(v.apps2_raw as nat)
        + "("@
        + dec(v.apps2_pct as nat)
        + "%) brake_raw="@
        + dec(v.brake_raw as nat)
}

/// Render [`ecu_pedals_human_text`].
fn ecu_pedals_human(ts: u64, v: EcuPedalsFrame) -> (s: String)
    ensures
        s@ == ecu_pedals_human_text(ts, v),
{
    let mut s = String::new();
    push_ts_prefix(&mut s, ts);
    assert(s@ =~= ts_prefix(ts));
    s.append(" pedals apps1=");
    push_dec(&mut s, v.apps1_raw as u64);
    s.append("(");
    push_dec(&mut s, v.apps1_pct as u64);
    s.append("%) apps2=");
    push_dec(&mut s, v.apps2_raw as u64);
    s.append("(");
    push_dec(&mut s, v.apps2_pct as u64);
    s.append("%) brake_raw=");
    push_dec(&mut s, v.brake_raw as u64);
    s
}

/// Human line for an ECU brake frame (pressure in bar, one decimal).
pub open spec fn ecu_brake_human_text(ts: u64, v: EcuBrakeFrame) -> Seq<char> {
    ts_prefix(ts)
        + " brake "@
        + tenths_text(v.brake_pressure_dbar as int)
        + "bar ("@
        + dec(v.brake_pct as nat)
        + "%)"@
}

/// Render [`ecu_brake_human_text`].
fn ecu_brake_human(ts: u64, v: EcuBrakeFrame) -> (s: String)
    ensures
        s@ == ecu_brake_human_text(ts, v),
{
    let mut s = String::new();
    push_ts_prefix(&mut s, ts);
    assert(s@ =~= ts_prefix(ts));
    s.append(" brake ");
    push_tenths(&mut s, v.brake_pressure_dbar as i64);
    s.append("bar (");
    push_dec(&mut s, v.brake_pct as u64);
    s.append("%)");
    s
}

/// Human line for an ECU inverter frame.
pub open spec fn ecu_inverter_human_text(ts: u64, v: EcuInverterFrame) -> Seq<char> {
    ts_prefix(ts)
        + " inv   vdc="@
        + dec(v.dc_bus_voltage as nat)
        + "V rpm="@
        + dec_int(v.inv_rpm as int)
        + " err=0x"@
        + hex_upper(v.inv_error as nat, 2)
}

/// Render [`ecu_inverter_human_text`].
fn ecu_inverter_human(ts: u64, v: EcuInverterFrame) -> (s: String)
    ensures
        s@ == ecu_inverter_human_text(ts, v),
{
    let mut s = String::new();
    push_ts_prefix(&mut s, ts);
    assert(s@ =~= ts_prefix(ts));
    s.append(" inv   vdc=");
    push_dec(&mut s, v.dc_bus_voltage as u64);
    s.append("V rpm=");
    push_int(&mut s, v.inv_rpm as i64);
    s.append(" err=0x");
    push_hex_upper(&mut s, v.inv_error as u64, 2);
    s
}

/// Human line for an ECU inverter-temperatures frame.
pub open spec fn ecu_temps_human_text(ts: u64, v: EcuInverterTempsFrame) -> Seq<char> {
    ts_prefix(ts)
        + " temps board="@
        + dec_int(v.board_degc as int)
        + "°C pwrstg="@
        + dec_int(v.pwrstg_degc as int)
        + "°C motor1="@
        + dec_int(v.motor1_degc as int)
        + "°C motor2="@
        + dec_int(v.motor2_degc as int)
        + "°C"@
}

/// Render [`ecu_temps_human_text`].
fn ecu_temps_human(ts: u64, v: EcuInverterTempsFrame) -> (s: String)
    ensures
        s@ == ecu_temps_human_text(ts, v),
{
    let mut s = String::new();
    push_ts_prefix(&mut s, ts);
    assert(s@ =~= ts_prefix(ts));
    s.append(" temps board=");
    push_int(&mut s, v.board_degc as i64);
    s.append("°C pwrstg=");
    push_int(&mut s, v.pwrstg_degc as i64);
    s.append("°C motor1=");
    push_int(&mut s, v.motor1_degc as i64);
    s.append("°C motor2=");
    push_int(&mut s, v.motor2_degc as i64);
    s.append("°C");
    s
}

/// Human line for an ECU firmware-info frame.
pub open spec fn ecu_fw_human_text(ts: u64, v: EcuFwInfoFrame) -> Seq<char> {
    ts_prefix(ts)
        + " fw    v"@
        + dec(v.fw_major as nat)
        + "."@
        + dec(v.fw_minor as nat)
        + "."@
        + dec(v.fw_patch as nat)
        + " git="@
        + hex_upper(v.git_hash@[0] as nat, 2)
        + hex_upper(v.git_hash@[1] as nat, 2)
        + hex_upper(v.git_hash@[2] as nat, 2)
        + hex_upper(v.git_hash@[3] as nat, 2)
}

/// Render [`ecu_fw_human_text`].
fn ecu_fw_human(ts: u64, v: EcuFwInfoFrame) -> (s: String)
    ensures
        s@ == ecu_fw_human_text(ts, v),
{
    let mut s = String::new();
    push_ts_prefix(&mut s, ts);
    assert(s@ =~= ts_prefix(ts));
    s.append(" fw    v");
    push_dec(&mut s, v.fw_major as u64);
    s.append(".");
    push_dec(&mut s, v.fw_minor as u64);
    s.append(".");
    push_dec(&mut s, v.fw_patch as u64);
    s.append(" git=");
    push_hex_upper(&mut s, v.git_hash[0] as u64, 2);
    push_hex_upper(&mut s, v.git_hash[1] as u64, 2);
    push_hex_upper(&mut s, v.git_hash[2] as u64, 2);
    push_hex_upper(&mut s, v.git_hash[3] as u64, 2);
    s
}

/// Human line for an ECU health frame.
pub open spec fn ecu_health_human_text(ts: u64, v: EcuHealthFrame) -> Seq<char> {
    ts_prefix(ts)
        + " health heap="@
        + dec(v.free_heap as nat)
        + "/"@
        + dec(v.min_free_heap as nat)
        + " tasks[ctrl="@
        + bit_text(v.task_control)
        + " rx="@
        + bit_text(v.task_can_rx)
        + " tx="@
        + bit_text(v.task_can_tx)
        + " diag="@
        + bit_text(v.task_diag)
        + "] reset="@
        + ecu_reset_cause_debug(v.reset_cause)
        + " uptime="@
        + dec(v.uptime_s as nat)
        + "s last_fault=0x"@
        + hex_upper(v.last_fault as nat, 2)
}

/// Render [`ecu_health_human_text`].
fn ecu_health_human(ts: u64, v: EcuHealthFrame) -> (s: String)
    ensures
        s@ == ecu_health_human_text(ts, v),
{
    let mut s = String::new();
    push_ts_prefix(&mut s, ts);
    assert(s@ =~= ts_prefix(ts));
    s.append(" health heap=");
    push_dec(&mut s, v.free_heap as u64);
    s.append("/");
    push_dec(&mut s, v.min_free_heap as u64);
    s.append(" tasks[ctrl=");
    push_bit(&mut s, v.task_control);
    s.append(" rx=");
    push_bit(&mut s, v.task_can_rx);
    s.append(" tx=");
    push_bit(&mut s, v.task_can_tx);
    s.append(" diag=");
    push_bit(&mut s, v.task_diag);
    s.append("] reset=");
    push_ecu_reset_cause_debug(&mut s, v.reset_cause);
    s.append(" uptime=");
    push_dec(&mut s, v.uptime_s as u64);
    s.append("s last_fault=0x");
    push_hex_upper(&mut s, v.last_fault as u64, 2);
    s
}

/// Human line for an ECU DV frame.
pub open spec fn ecu_dv_human_text(ts: u64, v: EcuDvFrame) -> Seq<char> {
    ts_prefix(ts)
        + " dv    mode_torque="@
        + dec(v.dv_torque_pct as nat)
        + "% rpm="@
        + dec_int(v.motor_rpm_mech as int)
        + " [r2d_req="@
        + bit_text(v.dv_r2d_req)
        + " cmd_fresh="@
        + bit_text(v.dv_cmd_fresh)
        + " ts="@
        + bit_text(v.ts_active)
        + " brk_lim="@
        + bit_text(v.brake_over_limit)
        + " r2d_ok="@
        + bit_text(v.r2d_confirm)
        + "]"@
}

/// Render [`ecu_dv_human_text`].
fn ecu_dv_human(ts: u64, v: EcuDvFrame) -> (s: String)
    ensures
        s@ == ecu_dv_human_text(ts, v),
{
    let mut s = String::new();
    push_ts_prefix(&mut s, ts);
    assert(s@ =~= ts_prefix(ts));
    s.append(" dv    mode_torque=");
    push_dec(&mut s, v.dv_torque_pct as u64);
    s.append("% rpm=");
    push_int(&mut s, v.motor_rpm_mech as i64);
    s.append(" [r2d_req=");
    push_bit(&mut s, v.dv_r2d_req);
    s.append(" cmd_fresh=");
    push_bit(&mut s, v.dv_cmd_fresh);
    s.append(" ts=");
    push_bit(&mut s, v.ts_active);
    s.append(" brk_lim=");
    push_bit(&mut s, v.brake_over_limit);
    s.append(" r2d_ok=");
    push_bit(&mut s, v.r2d_confirm);
    s.append("]");
    s
}

/// JSON line for an ECU status frame.
pub open spec fn ecu_status_json_text(ts: u64, v: EcuStatusFrame) -> Seq<char> {
    "{\"tsMs\":"@ + dec(ts as nat)
        + ",\"kind\":\"ecuStatus\",\"fsmState\":\""@
        + ecu_fsm_state_debug(v.fsm_state)
        + "\",\"invState\":\""@
        + ecu_inv_state_debug(v.inv_state)
        + "\",\"ev23\":"@
        + bool_text(v.ev_2_3)
        + ",\"t11_8_9\":"@
        + bool_text(v.t11_8_9)
        + ",\"rtdsActive\":"@
        + bool_text(v.rtds_active)
        + ",\"okPrecharge\":"@
        + bool_text(v.ok_precharge)
        + ",\"startButton\":"@
        + bool_text(v.start_button)
        + ",\"dvMode\":"@
        + bool_text(v.dv_mode)
        + ",\"torquePct\":"@
        + dec(v.torque_pct as nat)
        + ",\"vCellMinMv\":"@
        + dec(v.v_cell_min_mv as nat)
        + ",\"torqueCmd\":"@
        + dec_int(v.torque_cmd as int)
        + "}"@
}

/// Render [`ecu_status_json_text`].
fn ecu_status_json(ts: u64, v: EcuStatusFrame) -> (s: String)
    ensures
        s@ == ecu_status_json_text(ts, v),
{
    let mut s = String::new();
    s.append("{\"tsMs\":");
    push_dec(&mut s, ts as u64);
    assert(s@ =~= "{\"tsMs\":"@ + dec(ts as nat));
    s.append(",\"kind\":\"ecuStatus\",\"fsmState\":\"");
    push_ecu_fsm_state_debug(&mut s, v.fsm_state);
    s.append("\",\"invState\":\"");
    push_ecu_inv_state_debug(&mut s, v.inv_state);
    s.append("\",\"ev23\":");
    push_bool(&mut s, v.ev_2_3);
    s.append(",\"t11_8_9\":");
    push_bool(&mut s, v.t11_8_9);
    s.append(",\"rtdsActive\":");
    push_bool(&mut s, v.rtds_active);
    s.append(",\"okPrecharge\":");
    push_bool(&mut s, v.ok_precharge);
    s.append(",\"startButton\":");
    push_bool(&mut s, v.start_button);
    s.append(",\"dvMode\":");
    push_bool(&mut s, v.dv_mode);
    s.append(",\"torquePct\":");
    push_dec(&mut s, v.torque_pct as u64);
    s.append(",\"vCellMinMv\":");
    push_dec(&mut s, v.v_cell_min_mv as u64);
    s.append(",\"torqueCmd\":");
    push_int(&mut s, v.torque_cmd as i64);
    s.append("}");
    s
}

/// JSON line for an ECU pedals frame.
pub open spec fn ecu_pedals_json_text(ts: u64, v: EcuPedalsFrame) -> Seq<char> {
    "{\"tsMs\":"@ + dec(ts as nat)
        + ",\"kind\":\"ecuPedals\",\"apps1Raw\":"@
        + dec(v.apps1_raw as nat)
        + ",\"apps2Raw\":"@
        + dec(v.apps2_raw as nat)
        + ",\"brakeRaw\":"@
        + dec(v.brake_raw as nat)
        + ",\"apps1Pct\":"@
        + dec(v.apps1_pct as nat)
        + ",\"apps2Pct\":"@
        + dec(v.apps2_pct as nat)
        + "}"@
}

/// Render [`ecu_pedals_json_text`].
fn ecu_pedals_json(ts: u64, v: EcuPedalsFrame) -> (s: String)
    ensures
        s@ == ecu_pedals_json_text(ts, v),
{
    let mut s = String::new();
    s.append("{\"tsMs\":");
    push_dec(&mut s, ts as u64);
    assert(s@ =~= "{\"tsMs\":"@ + dec(ts as nat));
    s.append(",\"kind\":\"ecuPedals\",\"apps1Raw\":");
    push_dec(&mut s, v.apps1_raw as u64);
    s.append(",\"apps2Raw\":");
    push_dec(&mut s, v.apps2_raw as u64);
    s.append(",\"brakeRaw\":");
    push_dec(&mut s, v.brake_raw as u64);
    s.append(",\"apps1Pct\":");
    push_dec(&mut s, v.apps1_pct as u64);
    s.append(",\"apps2Pct\":");
    push_dec(&mut s, v.apps2_pct as u64);
    s.append("}");
    s
}

/// JSON line for an ECU brake frame.
pub open spec fn ecu_brake_json_text(ts: u64, v: EcuBrakeFrame) -> Seq<char> {
    "{\"tsMs\":"@ + dec(ts as nat)
        + ",\"kind\":\"ecuBrake\",\"brakePressureDbar\":"@
        + dec(v.brake_pressure_dbar as nat)
        + ",\"brakePct\":"@
        + dec(v.brake_pct as nat)
        + "}"@
}

/// Render [`ecu_brake_json_text`].
fn ecu_brake_json(ts: u64, v: EcuBrakeFrame) -> (s: String)
    ensures
        s@ == ecu_brake_json_text(ts, v),
{
    let mut s = String::new();
    s.append("{\"tsMs\":");
    push_dec(&mut s, ts as u64);
    assert(s@ =~= "{\"tsMs\":"@ + dec(ts as nat));
    s.append(",\"kind\":\"ecuBrake\",\"brakePressureDbar\":");
    push_dec(&mut s, v.brake_pressure_dbar as u64);
    s.append(",\"brakePct\":");
    push_dec(&mut s, v.brake_pct as u64);
    s.append("}");
    s
}

/// JSON line for an ECU inverter frame.
pub open spec fn ecu_inverter_json_text(ts: u64, v: EcuInverterFrame) -> Seq<char> {
    "{\"tsMs\":"@ + dec(ts as nat)
        + ",\"kind\":\"ecuInverter\",\"dcBusVoltage\":"@
        + dec(v.dc_bus_voltage as nat)
        + ",\"invRpm\":"@
        + dec_int(v.inv_rpm as int)
        + ",\"invError\":"@
        + dec(v.inv_error as nat)
        + "}"@
}

/// Render [`ecu_inverter_json_text`].
fn ecu_inverter_json(ts: u64, v: EcuInverterFrame) -> (s: String)
    ensures
        s@ == ecu_inverter_json_text(ts, v),
{
    let mut s = String::new();
    s.append("{\"tsMs\":");
    push_dec(&mut s, ts as u64);
    assert(s@ =~= "{\"tsMs\":"@ + dec(ts as nat));
    s.append(",\"kind\":\"ecuInverter\",\"dcBusVoltage\":");
    push_dec(&mut s, v.dc_bus_voltage as u64);
    s.append(",\"invRpm\":");
    push_int(&mut s, v.inv_rpm as i64);
    s.append(",\"invError\":");
    push_dec(&mut s, v.inv_error as u64);
    s.append("}");
    s
}

/// JSON line for an ECU inverter-temperatures frame.
pub open spec fn ecu_temps_json_text(ts: u64, v: EcuInverterTempsFrame) -> Seq<char> {
    "{\"tsMs\":"@ + dec(ts as nat)
        + ",\"kind\":\"ecuInverterTemps\",\"boardDegc\":"@
        + dec_int(v.board_degc as int)
        + ",\"pwrstgDegc\":"@
        + dec_int(v.pwrstg_degc as int)
        + ",\"motor1Degc\":"@
        + dec_int(v.motor1_degc as int)
        + ",\"motor2Degc\":"@
        + dec_int(v.motor2_degc as int)
        + "}"@
}

/// Render [`ecu_temps_json_text`].
fn ecu_temps_json(ts: u64, v: EcuInverterTempsFrame) -> (s: String)
    ensures
        s@ == ecu_temps_json_text(ts, v),
{
    let mut s = String::new();
    s.append("{\"tsMs\":");
    push_dec(&mut s, ts as u64);
    assert(s@ =~= "{\"tsMs\":"@ + dec(ts as nat));
    s.append(",\"kind\":\"ecuInverterTemps\",\"boardDegc\":");
    push_int(&mut s, v.board_degc as i64);
    s.append(",\"pwrstgDegc\":");
    push_int(&mut s, v.pwrstg_degc as i64);
    s.append(",\"motor1Degc\":");
    push_int(&mut s, v.motor1_degc as i64);
    s.append(",\"motor2Degc\":");
    push_int(&mut s, v.motor2_degc as i64);
    s.append("}");
    s
}

/// JSON line for an ECU firmware-info frame.
pub open spec fn ecu_fw_json_text(ts: u64, v: EcuFwInfoFrame) -> Seq<char> {
    "{\"tsMs\":"@ + dec(ts as nat)
        + ",\"kind\":\"ecuFwInfo\",\"fwMajor\":"@
        + dec(v.fw_major as nat)
        + ",\"fwMinor\":"@
        + dec(v.fw_minor as nat)
        + ",\"fwPatch\":"@
        + dec(v.fw_patch as nat)
        + ",\"gitHash\":["@
        + dec(v.git_hash@[0] as nat)
        + ","@
        + dec(v.git_hash@[1] as nat)
        + ","@
        + dec(v.git_hash@[2] as nat)
        + ","@
        + dec(v.git_hash@[3] as nat)
        + "]}"@
}

/// Render [`ecu_fw_json_text`].
fn ecu_fw_json(ts: u64, v: EcuFwInfoFrame) -> (s: String)
    ensures
        s@ == ecu_fw_json_text(ts, v),
{
    let mut s = String::new();
    s.append("{\"tsMs\":");
    push_dec(&mut s, ts as u64);
    assert(s@ =~= "{\"tsMs\":"@ + dec(ts as nat));
    s.append(",\"kind\":\"ecuFwInfo\",\"fwMajor\":");
    push_dec(&mut s, v.fw_major as u64);
    s.append(",\"fwMinor\":");
    push_dec(&mut s, v.fw_minor as u64);
    s.append(",\"fwPatch\":");
    push_dec(&mut s, v.fw_patch as u64);
    s.append(",\"gitHash\":[");
    push_dec(&mut s, v.git_hash[0] as u64);
    s.append(",");
    push_dec(&mut s, v.git_hash[1] as u64);
    s.append(",");
    push_dec(&mut s, v.git_hash[2] as u64);
    s.append(",");
    push_dec(&mut s, v.git_hash[3] as u64);
    s.append("]}");
    s
}

/// JSON line for an ECU health frame.
pub open spec fn ecu_health_json_text(ts: u64, v: EcuHealthFrame) -> Seq<char> {
    "{\"tsMs\":"@ + dec(ts as nat)
        + ",\"kind\":\"ecuHealth\",\"freeHeap\":"@
        + dec(v.free_heap as nat)
        + ",\"minFreeHeap\":"@
        + dec(v.min_free_heap as nat)
        + ",\"taskControl\":"@
        + bool_text(v.task_control)
        + ",\"taskCanRx\":"@
        + bool_text(v.task_can_rx)
        + ",\"taskCanTx\":"@
        + bool_text(v.task_can_tx)
        + ",\"taskDiag\":"@
        + bool_text(v.task_diag)
        + ",\"resetCause\":\""@
        + ecu_reset_cause_debug(v.reset_cause)
        + "\",\"uptimeS\":"@
        + dec(v.uptime_s as nat)
        + ",\"lastFault\":"@
        + dec(v.last_fault as nat)
        + "}"@
}

/// Render [`ecu_health_json_text`].
fn ecu_health_json(ts: u64, v: EcuHealthFrame) -> (s: String)
    ensures
        s@ == ecu_health_json_text(ts, v),
{
    let mut s = String::new();
    s.append("{\"tsMs\":");
    push_dec(&mut s, ts as u64);
    assert(s@ =~= "{\"tsMs\":"@ + dec(ts as nat));
    s.append(",\"kind\":\"ecuHealth\",\"freeHeap\":");
    push_dec(&mut s, v.free_heap as u64);
    s.append(",\"minFreeHeap\":");
    push_dec(&mut s, v.min_free_heap as u64);
    s.append(",\"taskControl\":");
    push_bool(&mut s, v.task_control);
    s.append(",\"taskCanRx\":");
    push_bool(&mut s, v.task_can_rx);
    s.append(",\"taskCanTx\":");
    push_bool(&mut s, v.task_can_tx);
    s.append(",\"taskDiag\":");
    push_bool(&mut s, v.task_diag);
    s.append(",\"resetCause\":\"");
    push_ecu_reset_cause_debug(&mut s, v.reset_cause);
    s.append("\",\"uptimeS\":");
    push_dec(&mut s, v.uptime_s as u64);
    s.append(",\"lastFault\":");
    push_dec(&mut s, v.last_fault as u64);
    s.append("}");
    s
}

/// JSON line for an ECU DV frame.
pub open spec fn ecu_dv_json_text(ts: u64, v: EcuDvFrame) -> Seq<char> {
    "{\"tsMs\":"@ + dec(ts as nat)
        + ",\"kind\":\"ecuDv\",\"dvR2dReq\":"@
        + bool_text(v.dv_r2d_req)
        + ",\"dvCmdFresh\":"@
        + bool_text(v.dv_cmd_fresh)
        + ",\"tsActive\":"@
        + bool_text(v.ts_active)
        + ",\"brakeOverLimit\":"@
        + bool_text(v.brake_over_limit)
        + ",\"r2dConfirm\":"@
        + bool_text(v.r2d_confirm)
        + ",\"dvTorquePct\":"@
        + dec(v.dv_torque_pct as nat)
        + ",\"motorRpmMech\":"@
        + dec_int(v.motor_rpm_mech as int)
        + "}"@
}

/// Render [`ecu_dv_json_text`].
fn ecu_dv_json(ts: u64, v: EcuDvFrame) -> (s: String)
    ensures
        s@ == ecu_dv_json_text(ts, v),
{
    let mut s = String::new();
    s.append("{\"tsMs\":");
    push_dec(&mut s, ts as u64);
    assert(s@ =~= "{\"tsMs\":"@ + dec(ts as nat));
    s.append(",\"kind\":\"ecuDv\",\"dvR2dReq\":");
    push_bool(&mut s, v.dv_r2d_req);
    s.append(",\"dvCmdFresh\":");
    push_bool(&mut s, v.dv_cmd_fresh);
    s.append(",\"tsActive\":");
    push_bool(&mut s, v.ts_active);
    s.append(",\"brakeOverLimit\":");
    push_bool(&mut s, v.brake_over_limit);
    s.append(",\"r2dConfirm\":");
    push_bool(&mut s, v.r2d_confirm);
    s.append(",\"dvTorquePct\":");
    push_dec(&mut s, v.dv_torque_pct as u64);
    s.append(",\"motorRpmMech\":");
    push_int(&mut s, v.motor_rpm_mech as i64);
    s.append("}");
    s
}

/// Human line for a uDV status frame.
pub open spec fn udv_status_human_text(ts: u64, v: UdvStatusFrame) -> Seq<char> {
    ts_prefix(ts)
        + " status as="@
        + udv_as_state_debug(v.as_state)
        + " sig=0x"@
        + hex_upper(v.signals as nat, 4)
        + " mission="@
        + dec_int(v.mission_id as int)
        + " ebs="@
        + udv_ebs_init_debug(v.ebs_init)
        + " assi="@
        + udv_assi_debug(v.assi)
        + " armed="@
        + bit_text(v.diag_armed)
}

/// Render [`udv_status_human_text`].
fn udv_status_human(ts: u64, v: UdvStatusFrame) -> (s: String)
    ensures
        s@ == udv_status_human_text(ts, v),
{
    let mut s = String::new();
    push_ts_prefix(&mut s, ts);
    assert(s@ =~= ts_prefix(ts));
    s.append(" status as=");
    push_udv_as_state_debug(&mut s, v.as_state);
    s.append(" sig=0x");
    push_hex_upper(&mut s, v.signals as u64, 4);
    s.append(" mission=");
    push_int(&mut s, v.mission_id as i64);
    s.append(" ebs=");
    push_udv_ebs_init_debug(&mut s, v.ebs_init);
    s.append(" assi=");
    push_udv_assi_debug(&mut s, v.assi);
    s.append(" armed=");
    push_bit(&mut s, v.diag_armed);
    s
}

/// Human line for a uDV RES frame.
pub open spec fn udv_res_human_text(ts: u64, v: UdvResFrame) -> Seq<char> {
    ts_prefix(ts)
        + " res    status="@
        + udv_res_status_debug(v.res_status)
        + " bits=0x"@
        + hex_upper(v.bits as nat, 2)
        + " radio="@
        + dec(v.radio_quality as nat)
        + " age="@
        + dec(v.res_age_ms as nat)
        + "ms steer="@
        + udv_steer_motor_debug(v.steer_motor)
        + " raw191=0x"@
        + hex_upper(v.raw_0x191 as nat, 2)
}

/// Render [`udv_res_human_text`].
fn udv_res_human(ts: u64, v: UdvResFrame) -> (s: String)
    ensures
        s@ == udv_res_human_text(ts, v),
{
    let mut s = String::new();
    push_ts_prefix(&mut s, ts);
    assert(s@ =~= ts_prefix(ts));
    s.append(" res    status=");
    push_udv_res_status_debug(&mut s, v.res_status);
    s.append(" bits=0x");
    push_hex_upper(&mut s, v.bits as u64, 2);
    s.append(" radio=");
    push_dec(&mut s, v.radio_quality as u64);
    s.append(" age=");
    push_dec(&mut s, v.res_age_ms as u64);
    s.append("ms steer=");
    push_udv_steer_motor_debug(&mut s, v.steer_motor);
    s.append(" raw191=0x");
    push_hex_upper(&mut s, v.raw_0x191 as u64, 2);
    s
}

/// Human line for a uDV pipe frame.
pub open spec fn udv_pipe_human_text(ts: u64, v: UdvPipeFrame) -> Seq<char> {
    ts_prefix(ts)
        + " pipe   dv=0x"@
        + hex_upper(v.dv_status as nat, 2)
        + " accel="@
        + dec_int(v.accel_cmd_pct as int)
        + "% steer="@
        + dec_int(v.steer_cmd as int)
        + " dv_age="@
        + dec(v.dv_age_ms as nat)
        + "ms ctrl_age="@
        + dec(v.ctrl_age_ms as nat)
        + "ms setup=0x"@
        + hex_upper(v.setup_bits as nat, 2)
}

/// Render [`udv_pipe_human_text`].
fn udv_pipe_human(ts: u64, v: UdvPipeFrame) -> (s: String)
    ensures
        s@ == udv_pipe_human_text(ts, v),
{
    let mut s = String::new();
    push_ts_prefix(&mut s, ts);
    assert(s@ =~= ts_prefix(ts));
    s.append(" pipe   dv=0x");
    push_hex_upper(&mut s, v.dv_status as u64, 2);
    s.append(" accel=");
    push_int(&mut s, v.accel_cmd_pct as i64);
    s.append("% steer=");
    push_int(&mut s, v.steer_cmd as i64);
    s.append(" dv_age=");
    push_dec(&mut s, v.dv_age_ms as u64);
    s.append("ms ctrl_age=");
    push_dec(&mut s, v.ctrl_age_ms as u64);
    s.append("ms setup=0x");
    push_hex_upper(&mut s, v.setup_bits as u64, 2);
    s
}

/// Human line for a uDV health frame.
pub open spec fn udv_health_human_text(ts: u64, v: UdvHealthFrame) -> Seq<char> {
    ts_prefix(ts)
        + " health heap="@
        + dec(v.free_heap_words as nat)
        + "/"@
        + dec(v.min_free_heap_words as nat)
        + "w tasks=0x"@
        + hex_upper(v.task_mask as nat, 2)
        + " flags=0x"@
        + hex_upper(v.flags as nat, 2)
        + " stalled="@
        + dec_int(v.stalled_task as int)
        + " uptime="@
        + dec(v.uptime_s as nat)
        + "s"@
}

/// Render [`udv_health_human_text`].
fn udv_health_human(ts: u64, v: UdvHealthFrame) -> (s: String)
    ensures
        s@ == udv_health_human_text(ts, v),
{
    let mut s = String::new();
    push_ts_prefix(&mut s, ts);
    assert(s@ =~= ts_prefix(ts));
    s.append(" health heap=");
    push_dec(&mut s, v.free_heap_words as u64);
    s.append("/");
    push_dec(&mut s, v.min_free_heap_words as u64);
    s.append("w tasks=0x");
    push_hex_upper(&mut s, v.task_mask as u64, 2);
    s.append(" flags=0x");
    push_hex_upper(&mut s, v.flags as u64, 2);
    s.append(" stalled=");
    push_int(&mut s, v.stalled_task as i64);
    s.append(" uptime=");
    push_dec(&mut s, v.uptime_s as u64);
    s.append("s");
    s
}

/// Human line for a uDV firmware-info frame.
pub open spec fn udv_fw_human_text(ts: u64, v: UdvFwInfoFrame) -> Seq<char> {
    ts_prefix(ts)
        + " fw     git="@
        + hex_upper(v.git_hash as nat, 8)
        + " stub=0x"@
        + hex_upper(v.stub_mask as nat, 2)
        + " heap="@
        + dec(v.heap_size_kb as nat)
        + "KB uptime="@
        + dec(v.uptime_s as nat)
        + "s"@
}

/// Render [`udv_fw_human_text`].
fn udv_fw_human(ts: u64, v: UdvFwInfoFrame) -> (s: String)
    ensures
        s@ == udv_fw_human_text(ts, v),
{
    let mut s = String::new();
    push_ts_prefix(&mut s, ts);
    assert(s@ =~= ts_prefix(ts));
    s.append(" fw     git=");
    push_hex_upper(&mut s, v.git_hash as u64, 8);
    s.append(" stub=0x");
    push_hex_upper(&mut s, v.stub_mask as u64, 2);
    s.append(" heap=");
    push_dec(&mut s, v.heap_size_kb as u64);
    s.append("KB uptime=");
    push_dec(&mut s, v.uptime_s as u64);
    s.append("s");
    s
}

/// Human line for a uDV CAN-health frame.
pub open spec fn udv_can_human_text(ts: u64, v: UdvCanHealthFrame) -> Seq<char> {
    ts_prefix(ts)
        + " canhlt flags=0x"@
        + hex_upper(v.flags as nat, 2)
        + " lec="@
        + dec(v.last_error_code as nat)
        + " tec="@
        + dec(v.tx_err_count as nat)
        + " rec="@
        + dec(v.rx_err_count as nat)
        + " res_rx="@
        + dec(v.res_rx_count as nat)
        + " nmt="@
        + dec(v.nmt_count as nat)
        + " ack_err="@
        + bit_text(v.ack_error)
}

/// Render [`udv_can_human_text`].
fn udv_can_human(ts: u64, v: UdvCanHealthFrame) -> (s: String)
    ensures
        s@ == udv_can_human_text(ts, v),
{
    let mut s = String::new();
    push_ts_prefix(&mut s, ts);
    assert(s@ =~= ts_prefix(ts));
    s.append(" canhlt flags=0x");
    push_hex_upper(&mut s, v.flags as u64, 2);
    s.append(" lec=");
    push_dec(&mut s, v.last_error_code as u64);
    s.append(" tec=");
    push_dec(&mut s, v.tx_err_count as u64);
    s.append(" rec=");
    push_dec(&mut s, v.rx_err_count as u64);
    s.append(" res_rx=");
    push_dec(&mut s, v.res_rx_count as u64);
    s.append(" nmt=");
    push_dec(&mut s, v.nmt_count as u64);
    s.append(" ack_err=");
    push_bit(&mut s, v.ack_error);
    s
}

/// Human line for a uDV calibration frame (angles in degrees, one decimal).
pub open spec fn udv_calib_human_text(ts: u64, v: UdvCalibFrame) -> Seq<char> {
    ts_prefix(ts)
        + " calib  phase="@
        + dec(v.phase as nat)
        + " ("@
        + calib_phase_text(v.phase)
        + ") error="@
        + dec(v.error as nat)
        + " ("@
        + calib_error_text(v.error)
        + ") center="@
        + tenths_text(v.center_ddeg as int)
        + "° half="@
        + tenths_text(v.half_range_ddeg as int)
        + "° limit="@
        + tenths_text(v.limit_ddeg as int)
        + "°"@
}

/// Render [`udv_calib_human_text`].
fn udv_calib_human(ts: u64, v: UdvCalibFrame) -> (s: String)
    ensures
        s@ == udv_calib_human_text(ts, v),
{
    let mut s = String::new();
    push_ts_prefix(&mut s, ts);
    assert(s@ =~= ts_prefix(ts));
    s.append(" calib  phase=");
    push_dec(&mut s, v.phase as u64);
    s.append(" (");
    s.append(calib_phase_name(v.phase));
    s.append(") error=");
    push_dec(&mut s, v.error as u64);
    s.append(" (");
    s.append(calib_error_name(v.error));
    s.append(") center=");
    push_tenths(&mut s, v.center_ddeg as i64);
    s.append("° half=");
    push_tenths(&mut s, v.half_range_ddeg as i64);
    s.append("° limit=");
    push_tenths(&mut s, v.limit_ddeg as i64);
    s.append("°");
    s
}

/// JSON line for a uDV status frame.
pub open spec fn udv_status_json_text(ts: u64, v: UdvStatusFrame) -> Seq<char> {
    "{\"tsMs\":"@ + dec(ts as nat)
        + ",\"kind\":\"udvStatus\",\"asState\":\""@
        + udv_as_state_debug(v.as_state)
        + "\",\"signals\":"@
        + dec(v.signals as nat)
        + ",\"missionId\":"@
        + dec_int(v.mission_id as int)
        + ",\"ebsInit\":\""@
        + udv_ebs_init_debug(v.ebs_init)
        + "\",\"stubMask\":"@
        + dec(v.stub_mask as nat)
        + ",\"assi\":\""@
        + udv_assi_debug(v.assi)
        + "\",\"diagArmed\":"@
        + bool_text(v.diag_armed)
        + "}"@
}

/// Render [`udv_status_json_text`].
fn udv_status_json(ts: u64, v: UdvStatusFrame) -> (s: String)
    ensures
        s@ == udv_status_json_text(ts, v),
{
    let mut s = String::new();
    s.append("{\"tsMs\":");
    push_dec(&mut s, ts as u64);
    assert(s@ =~= "{\"tsMs\":"@ + dec(ts as nat));
    s.append(",\"kind\":\"udvStatus\",\"asState\":\"");
    push_udv_as_state_debug(&mut s, v.as_state);
    s.append("\",\"signals\":");
    push_dec(&mut s, v.signals as u64);
    s.append(",\"missionId\":");
    push_int(&mut s, v.mission_id as i64);
    s.append(",\"ebsInit\":\"");
    push_udv_ebs_init_debug(&mut s, v.ebs_init);
    s.append("\",\"stubMask\":");
    push_dec(&mut s, v.stub_mask as u64);
    s.append(",\"assi\":\"");
    push_udv_assi_debug(&mut s, v.assi);
    s.append("\",\"diagArmed\":");
    push_bool(&mut s, v.diag_armed);
    s.append("}");
    s
}

/// JSON line for a uDV RES frame.
pub open spec fn udv_res_json_text(ts: u64, v: UdvResFrame) -> Seq<char> {
    "{\"tsMs\":"@ + dec(ts as nat)
        + ",\"kind\":\"udvRes\",\"raw0x191\":"@
        + dec(v.raw_0x191 as nat)
        + ",\"resStatus\":\""@
        + udv_res_status_debug(v.res_status)
        + "\",\"bits\":"@
        + dec(v.bits as nat)
        + ",\"radioQuality\":"@
        + dec(v.radio_quality as nat)
        + ",\"resAgeMs\":"@
        + dec(v.res_age_ms as nat)
        + ",\"steerMotor\":\""@
        + udv_steer_motor_debug(v.steer_motor)
        + "\",\"lwsStatus\":"@
        + dec(v.lws_status as nat)
        + "}"@
}

/// Render [`udv_res_json_text`].
fn udv_res_json(ts: u64, v: UdvResFrame) -> (s: String)
    ensures
        s@ == udv_res_json_text(ts, v),
{
    let mut s = String::new();
    s.append("{\"tsMs\":");
    push_dec(&mut s, ts as u64);
    assert(s@ =~= "{\"tsMs\":"@ + dec(ts as nat));
    s.append(",\"kind\":\"udvRes\",\"raw0x191\":");
    push_dec(&mut s, v.raw_0x191 as u64);
    s.append(",\"resStatus\":\"");
    push_udv_res_status_debug(&mut s, v.res_status);
    s.append("\",\"bits\":");
    push_dec(&mut s, v.bits as u64);
    s.append(",\"radioQuality\":");
    push_dec(&mut s, v.radio_quality as u64);
    s.append(",\"resAgeMs\":");
    push_dec(&mut s, v.res_age_ms as u64);
    s.append(",\"steerMotor\":\"");
    push_udv_steer_motor_debug(&mut s, v.steer_motor);
    s.append("\",\"lwsStatus\":");
    push_dec(&mut s, v.lws_status as u64);
    s.append("}");
    s
}

/// JSON line for a uDV pipe frame.
pub open spec fn udv_pipe_json_text(ts: u64, v: UdvPipeFrame) -> Seq<char> {
    "{\"tsMs\":"@ + dec(ts as nat)
        + ",\"kind\":\"udvPipe\",\"dvStatus\":"@
        + dec(v.dv_status as nat)
        + ",\"dvAgeMs\":"@
        + dec(v.dv_age_ms as nat)
        + ",\"accelCmdPct\":"@
        + dec_int(v.accel_cmd_pct as int)
        + ",\"steerCmd\":"@
        + dec_int(v.steer_cmd as int)
        + ",\"ctrlAgeMs\":"@
        + dec(v.ctrl_age_ms as nat)
        + ",\"setupBits\":"@
        + dec(v.setup_bits as nat)
        + "}"@
}

/// Render [`udv_pipe_json_text`].
fn udv_pipe_json(ts: u64, v: UdvPipeFrame) -> (s: String)
    ensures
        s@ == udv_pipe_json_text(ts, v),
{
    let mut s = String::new();
    s.append("{\"tsMs\":");
    push_dec(&mut s, ts as u64);
    assert(s@ =~= "{\"tsMs\":"@ + dec(ts as nat));
    s.append(",\"kind\":\"udvPipe\",\"dvStatus\":");
    push_dec(&mut s, v.dv_status as u64);
    s.append(",\"dvAgeMs\":");
    push_dec(&mut s, v.dv_age_ms as u64);
    s.append(",\"accelCmdPct\":");
    push_int(&mut s, v.accel_cmd_pct as i64);
    s.append(",\"steerCmd\":");
    push_int(&mut s, v.steer_cmd as i64);
    s.append(",\"ctrlAgeMs\":");
    push_dec(&mut s, v.ctrl_age_ms as u64);
    s.append(",\"setupBits\":");
    push_dec(&mut s, v.setup_bits as u64);
    s.append("}");
    s
}

/// JSON line for a uDV health frame.
pub open spec fn udv_health_json_text(ts: u64, v: UdvHealthFrame) -> Seq<char> {
    "{\"tsMs\":"@ + dec(ts as nat)
        + ",\"kind\":\"udvHealth\",\"freeHeapWords\":"@
        + dec(v.free_heap_words as nat)
        + ",\"minFreeHeapWords\":"@
        + dec(v.min_free_heap_words as nat)
        + ",\"taskMask\":"@
        + dec(v.task_mask as nat)
        + ",\"flags\":"@
        + dec(v.flags as nat)
        + ",\"stalledTask\":"@
        + dec_int(v.stalled_task as int)
        + ",\"uptimeS\":"@
        + dec(v.uptime_s as nat)
        + "}"@
}

/// Render [`udv_health_json_text`].
fn udv_health_json(ts: u64, v: UdvHealthFrame) -> (s: String)
    ensures
        s@ == udv_health_json_text(ts, v),
{
    let mut s = String::new();
    s.append("{\"tsMs\":");
    push_dec(&mut s, ts as u64);
    assert(s@ =~= "{\"tsMs\":"@ + dec(ts as nat));
    s.append(",\"kind\":\"udvHealth\",\"freeHeapWords\":");
    push_dec(&mut s, v.free_heap_words as u64);
    s.append(",\"minFreeHeapWords\":");
    push_dec(&mut s, v.min_free_heap_words as u64);
    s.append(",\"taskMask\":");
    push_dec(&mut s, v.task_mask as u64);
    s.append(",\"flags\":");
    push_dec(&mut s, v.flags as u64);
    s.append(",\"stalledTask\":");
    push_int(&mut s, v.stalled_task as i64);
    s.append(",\"uptimeS\":");
    push_dec(&mut s, v.uptime_s as u64);
    s.append("}");
    s
}

/// JSON line for a uDV firmware-info frame.
pub open spec fn udv_fw_json_text(ts: u64, v: UdvFwInfoFrame) -> Seq<char> {
    "{\"tsMs\":"@ + dec(ts as nat)
        + ",\"kind\":\"udvFwInfo\",\"gitHash\":"@
        + dec(v.git_hash as nat)
        + ",\"stubMask\":"@
        + dec(v.stub_mask as nat)
        + ",\"heapSizeKb\":"@
        + dec(v.heap_size_kb as nat)
        + ",\"uptimeS\":"@
        + dec(v.uptime_s as nat)
        + "}"@
}

/// Render [`udv_fw_json_text`].
fn udv_fw_json(ts: u64, v: UdvFwInfoFrame) -> (s: String)
    ensures
        s@ == udv_fw_json_text(ts, v),
{
    let mut s = String::new();
    s.append("{\"tsMs\":");
    push_dec(&mut s, ts as u64);
    assert(s@ =~= "{\"tsMs\":"@ + dec(ts as nat));
    s.append(",\"kind\":\"udvFwInfo\",\"gitHash\":");
    push_dec(&mut s, v.git_hash as u64);
    s.append(",\"stubMask\":");
    push_dec(&mut s, v.stub_mask as u64);
    s.append(",\"heapSizeKb\":");
    push_dec(&mut s, v.heap_size_kb as u64);
    s.append(",\"uptimeS\":");
    push_dec(&mut s, v.uptime_s as u64);
    s.append("}");
    s
}

/// JSON line for a uDV CAN-health frame.
pub open spec fn udv_can_json_text(ts: u64, v: UdvCanHealthFrame) -> Seq<char> {
    "{\"tsMs\":"@ + dec(ts as nat)
        + ",\"kind\":\"udvCanHealth\",\"flags\":"@
        + dec(v.flags as nat)
        + ",\"lastErrorCode\":"@
        + dec(v.last_error_code as nat)
        + ",\"txErrCount\":"@
        + dec(v.tx_err_count as nat)
        + ",\"rxErrCount\":"@
        + dec(v.rx_err_count as nat)
        + ",\"resRxCount\":"@
        + dec(v.res_rx_count as nat)
        + ",\"nmtCount\":"@
        + dec(v.nmt_count as nat)
        + ",\"ackError\":"@
        + bool_text(v.ack_error)
        + "}"@
}

/// Render [`udv_can_json_text`].
fn udv_can_json(ts: u64, v: UdvCanHealthFrame) -> (s: String)
    ensures
        s@ == udv_can_json_text(ts, v),
{
    let mut s = String::new();
    s.append("{\"tsMs\":");
    push_dec(&mut s, ts as u64);
    assert(s@ =~= "{\"tsMs\":"@ + dec(ts as nat));
    s.append(",\"kind\":\"udvCanHealth\",\"flags\":");
    push_dec(&mut s, v.flags as u64);
    s.append(",\"lastErrorCode\":");
    push_dec(&mut s, v.last_error_code as u64);
    s.append(",\"txErrCount\":");
    push_dec(&mut s, v.tx_err_count as u64);
    s.append(",\"rxErrCount\":");
    push_dec(&mut s, v.rx_err_count as u64);
    s.append(",\"resRxCount\":");
    push_dec(&mut s, v.res_rx_count as u64);
    s.append(",\"nmtCount\":");
    push_dec(&mut s, v.nmt_count as u64);
    s.append(",\"ackError\":");
    push_bool(&mut s, v.ack_error);
    s.append("}");
    s
}

/// JSON line for a uDV calibration frame.
pub open spec fn udv_calib_json_text(ts: u64, v: UdvCalibFrame) -> Seq<char> {
    "{\"tsMs\":"@ + dec(ts as nat)
        + ",\"kind\":\"udvCalib\",\"phase\":"@
        + dec(v.phase as nat)
        + ",\"error\":"@
        + dec(v.error as nat)
        + ",\"centerDdeg\":"@
        + dec_int(v.center_ddeg as int)
        + ",\"halfRangeDdeg\":"@
        + dec_int(v.half_range_ddeg as int)
        + ",\"limitDdeg\":"@
        + dec_int(v.limit_ddeg as int)
        + "}"@
}

/// Render [`udv_calib_json_text`].
fn udv_calib_json(ts: u64, v: UdvCalibFrame) -> (s: String)
    ensures
        s@ == udv_calib_json_text(ts, v),
{
    let mut s = String::new();
    s.append("{\"tsMs\":");
    push_dec(&mut s, ts as u64);
    assert(s@ =~= "{\"tsMs\":"@ + dec(ts as nat));
    s.append(",\"kind\":\"udvCalib\",\"phase\":");
    push_dec(&mut s, v.phase as u64);
    s.append(",\"error\":");
    push_dec(&mut s, v.error as u64);
    s.append(",\"centerDdeg\":");
    push_int(&mut s, v.center_ddeg as i64);
    s.append(",\"halfRangeDdeg\":");
    push_int(&mut s, v.half_range_ddeg as i64);
    s.append(",\"limitDdeg\":");
    push_int(&mut s, v.limit_ddeg as i64);
    s.append("}");
    s
}

/// A rendered human line and the stream it belongs on: acknowledgements go
/// to stderr so that stdout carries only the decoded telemetry.
pub struct ObserverLine {
    pub to_stderr: bool,
    pub text: String,
}

/// Did the previous boot record no fault (`PostMortemFrame::is_clean`)?
pub open spec fn post_mortem_clean(p: PostMortemFrame) -> bool {
    !p.stack_overflow_seen && p.task_addr_lo == 0 && p.malloc_failed_count == 0
}

/// The human line for an AMS frame.
pub open spec fn record_human_text(ts: u64, r: PitDiagFrame) -> Seq<char> {
    match r {
        PitDiagFrame::Ack { enabled } => ams_ack_human_text(ts, enabled),
        PitDiagFrame::CellVoltage(c) => ams_cell_human_text(ts, c),
        PitDiagFrame::NtcTemp(t) => ams_ntc_human_text(ts, t),
        PitDiagFrame::FsmStatus(f) => ams_fsm_human_text(ts, f),
        PitDiagFrame::PollTiming(p) => ams_poll_human_text(ts, p),
        PitDiagFrame::BalanceMaskA(b) => ams_bal_a_human_text(ts, b),
        PitDiagFrame::BalanceMaskB(b) => ams_bal_b_human_text(ts, b),
        PitDiagFrame::BootDiag(b) => ams_boot_human_text(ts, b),
        PitDiagFrame::PostMortem(p) => if post_mortem_clean(p) {
            ams_crash_clean_human_text(ts)
        } else {
            ams_crash_human_text(ts, p)
        },
        PitDiagFrame::FwId(f) => ams_fw_human_text(ts, f),
        PitDiagFrame::PerIcPec(p) => ams_pec_human_text(ts, p),
    }
}

/// Render an AMS frame for the terminal; only the acknowledgement goes to stderr.
pub fn record_human(ts_ms: u64, record: &PitDiagFrame) -> (line: ObserverLine)
    ensures
        line.text@ == record_human_text(ts_ms, *record),
        line.to_stderr == (*record is Ack),
{
    let text = match *record {
        PitDiagFrame::Ack { enabled } => ams_ack_human(ts_ms, enabled),
        PitDiagFrame::CellVoltage(c) => ams_cell_human(ts_ms, c),
        PitDiagFrame::NtcTemp(t) => ams_ntc_human(ts_ms, t),
        PitDiagFrame::FsmStatus(f) => ams_fsm_human(ts_ms, f),
        PitDiagFrame::PollTiming(p) => ams_poll_human(ts_ms, p),
        PitDiagFrame::BalanceMaskA(b) => ams_bal_a_human(ts_ms, b),
        PitDiagFrame::BalanceMaskB(b) => ams_bal_b_human(ts_ms, b),
        PitDiagFrame::BootDiag(b) => ams_boot_human(ts_ms, b),
        PitDiagFrame::PostMortem(p) => if p.is_clean() {
            ams_crash_clean_human(ts_ms)
        } else {
            ams_crash_human(ts_ms, p)
        },
        PitDiagFrame::FwId(f) => ams_fw_human(ts_ms, f),
        PitDiagFrame::PerIcPec(p) => ams_pec_human(ts_ms, p),
    };
    let to_stderr = match *record {
        PitDiagFrame::Ack { .. } => true,
        _ => false,
    };
    ObserverLine { to_stderr, text }
}

/// The NDJSON line for an AMS frame.
pub open spec fn record_json_text(ts: u64, r: PitDiagFrame) -> Seq<char> {
    match r {
        PitDiagFrame::Ack { enabled } => ams_ack_json_text(ts, enabled),
        PitDiagFrame::CellVoltage(c) => ams_cell_json_text(ts, c),
        PitDiagFrame::NtcTemp(t) => ams_ntc_json_text(ts, t),
        PitDiagFrame::FsmStatus(f) => ams_fsm_json_text(ts, f),
        PitDiagFrame::PollTiming(p) => ams_poll_json_text(ts, p),
        PitDiagFrame::BalanceMaskA(b) => ams_bal_a_json_text(ts, b),
        PitDiagFrame::BalanceMaskB(b) => ams_bal_b_json_text(ts, b),
        PitDiagFrame::BootDiag(b) => ams_boot_json_text(ts, b),
        PitDiagFrame::PostMortem(p) => ams_crash_json_text(ts, p),
        PitDiagFrame::FwId(f) => ams_fw_json_text(ts, f),
        PitDiagFrame::PerIcPec(p) => ams_pec_json_text(ts, p),
    }
}

/// Render an AMS frame as one NDJSON object (field names match the
/// desktop front-end's events).
pub fn record_json(ts_ms: u64, record: &PitDiagFrame) -> (line: String)
    ensures
        line@ == record_json_text(ts_ms, *record),
{
    match *record {
        PitDiagFrame::Ack { enabled } => ams_ack_json(ts_ms, enabled),
        PitDiagFrame::CellVoltage(c) => ams_cell_json(ts_ms, c),
        PitDiagFrame::NtcTemp(t) => ams_ntc_json(ts_ms, t),
        PitDiagFrame::FsmStatus(f) => ams_fsm_json(ts_ms, f),
        PitDiagFrame::PollTiming(p) => ams_poll_json(ts_ms, p),
        PitDiagFrame::BalanceMaskA(b) => ams_bal_a_json(ts_ms, b),
        PitDiagFrame::BalanceMaskB(b) => ams_bal_b_json(ts_ms, b),
        PitDiagFrame::BootDiag(b) => ams_boot_json(ts_ms, b),
        PitDiagFrame::PostMortem(p) => ams_crash_json(ts_ms, p),
        PitDiagFrame::FwId(f) => ams_fw_json(ts_ms, f),
        PitDiagFrame::PerIcPec(p) => ams_pec_json(ts_ms, p),
    }
}

/// The human line for an ECU frame.
pub open spec fn ecu_human_text(ts: u64, r: EcuPitDiagFrame) -> Seq<char> {
    match r {
        EcuPitDiagFrame::Ack { enabled } => ams_ack_human_text(ts, enabled),
        EcuPitDiagFrame::Status(v) => ecu_status_human_text(ts, v),
        EcuPitDiagFrame::Pedals(v) => ecu_pedals_human_text(ts, v),
        EcuPitDiagFrame::Brake(v) => ecu_brake_human_text(ts, v),
        EcuPitDiagFrame::Inverter(v) => ecu_inverter_human_text(ts, v),
        EcuPitDiagFrame::InverterTemps(v) => ecu_temps_human_text(ts, v),
        EcuPitDiagFrame::FwInfo(v) => ecu_fw_human_text(ts, v),
        EcuPitDiagFrame::Health(v) => ecu_health_human_text(ts, v),
        EcuPitDiagFrame::Dv(v) => ecu_dv_human_text(ts, v),
    }
}

/// Render an ECU frame for the terminal; only the acknowledgement goes to stderr.
pub fn ecu_human(ts_ms: u64, record: &EcuPitDiagFrame) -> (line: ObserverLine)
    ensures
        line.text@ == ecu_human_text(ts_ms, *record),
        line.to_stderr == (*record is Ack),
{
    let text = match *record {
        EcuPitDiagFrame::Ack { enabled } => ams_ack_human(ts_ms, enabled),
        EcuPitDiagFrame::Status(v) => ecu_status_human(ts_ms, v),
        EcuPitDiagFrame::Pedals(v) => ecu_pedals_human(ts_ms, v),
        EcuPitDiagFrame::Brake(v) => ecu_brake_human(ts_ms, v),
        EcuPitDiagFrame::Inverter(v) => ecu_inverter_human(ts_ms, v),
        EcuPitDiagFrame::InverterTemps(v) => ecu_temps_human(ts_ms, v),
        EcuPitDiagFrame::FwInfo(v) => ecu_fw_human(ts_ms, v),
        EcuPitDiagFrame::Health(v) => ecu_health_human(ts_ms, v),
        EcuPitDiagFrame::Dv(v) => ecu_dv_human(ts_ms, v),
    };
    let to_stderr = match *record {
        EcuPitDiagFrame::Ack { .. } => true,
        _ => false,
    };
    ObserverLine { to_stderr, text }
}

/// The NDJSON line for an ECU frame.
pub open spec fn ecu_json_text(ts: u64, r: EcuPitDiagFrame) -> Seq<char> {
    match r {
        EcuPitDiagFrame::Ack { enabled } => ams_ack_json_text(ts, enabled),
        EcuPitDiagFrame::Status(v) => ecu_status_json_text(ts, v),
        EcuPitDiagFrame::Pedals(v) => ecu_pedals_json_text(ts, v),
        EcuPitDiagFrame::Brake(v) => ecu_brake_json_text(ts, v),
        EcuPitDiagFrame::Inverter(v) => ecu_inverter_json_text(ts, v),
        EcuPitDiagFrame::InverterTemps(v) => ecu_temps_json_text(ts, v),
        EcuPitDiagFrame::FwInfo(v) => ecu_fw_json_text(ts, v),
        EcuPitDiagFrame::Health(v) => ecu_health_json_text(ts, v),
        EcuPitDiagFrame::Dv(v) => ecu_dv_json_text(ts, v),
    }
}

/// Render an ECU frame as one NDJSON object.
pub fn ecu_json(ts_ms: u64, record: &EcuPitDiagFrame) -> (line: String)
    ensures
        line@ == ecu_json_text(ts_ms, *record),
{
    match *record {
        EcuPitDiagFrame::Ack { enabled } => ams_ack_json(ts_ms, enabled),
        EcuPitDiagFrame::Status(v) => ecu_status_json(ts_ms, v),
        EcuPitDiagFrame::Pedals(v) => ecu_pedals_json(ts_ms, v),
        EcuPitDiagFrame::Brake(v) => ecu_brake_json(ts_ms, v),
        EcuPitDiagFrame::Inverter(v) => ecu_inverter_json(ts_ms, v),
        EcuPitDiagFrame::InverterTemps(v) => ecu_temps_json(ts_ms, v),
        EcuPitDiagFrame::FwInfo(v) => ecu_fw_json(ts_ms, v),
        EcuPitDiagFrame::Health(v) => ecu_health_json(ts_ms, v),
        EcuPitDiagFrame::Dv(v) => ecu_dv_json(ts_ms, v),
    }
}

/// The human line for a uDV frame.
pub open spec fn udv_human_text(ts: u64, r: UdvPitDiagFrame) -> Seq<char> {
    match r {
        UdvPitDiagFrame::Status(v) => udv_status_human_text(ts, v),
        UdvPitDiagFrame::Res(v) => udv_res_human_text(ts, v),
        UdvPitDiagFrame::Pipe(v) => udv_pipe_human_text(ts, v),
        UdvPitDiagFrame::Health(v) => udv_health_human_text(ts, v),
        UdvPitDiagFrame::FwInfo(v) => udv_fw_human_text(ts, v),
        UdvPitDiagFrame::CanHealth(v) => udv_can_human_text(ts, v),
        UdvPitDiagFrame::Calib(v) => udv_calib_human_text(ts, v),
    }
}

/// Render a uDV frame for the terminal (all of them go to stdout).
pub fn udv_human(ts_ms: u64, record: &UdvPitDiagFrame) -> (line: String)
    ensures
        line@ == udv_human_text(ts_ms, *record),
{
    match *record {
        UdvPitDiagFrame::Status(v) => udv_status_human(ts_ms, v),
        UdvPitDiagFrame::Res(v) => udv_res_human(ts_ms, v),
        UdvPitDiagFrame::Pipe(v) => udv_pipe_human(ts_ms, v),
        UdvPitDiagFrame::Health(v) => udv_health_human(ts_ms, v),
        UdvPitDiagFrame::FwInfo(v) => udv_fw_human(ts_ms, v),
        UdvPitDiagFrame::CanHealth(v) => udv_can_human(ts_ms, v),
        UdvPitDiagFrame::Calib(v) => udv_calib_human(ts_ms, v),
    }
}

/// The NDJSON line for a uDV frame.
pub open spec fn udv_json_text(ts: u64, r: UdvPitDiagFrame) -> Seq<char> {
    match r {
        UdvPitDiagFrame::Status(v) => udv_status_json_text(ts, v),
        UdvPitDiagFrame::Res(v) => udv_res_json_text(ts, v),
        UdvPitDiagFrame::Pipe(v) => udv_pipe_json_text(ts, v),
        UdvPitDiagFrame::Health(v) => udv_health_json_text(ts, v),
        UdvPitDiagFrame::FwInfo(v) => udv_fw_json_text(ts, v),
        UdvPitDiagFrame::CanHealth(v) => udv_can_json_text(ts, v),
        UdvPitDiagFrame::Calib(v) => udv_calib_json_text(ts, v),
    }
}

/// Render a uDV frame as one NDJSON object.
pub fn udv_json(ts_ms: u64, record: &UdvPitDiagFrame) -> (line: String)
    ensures
        line@ == udv_json_text(ts_ms, *record),
{
    match *record {
        UdvPitDiagFrame::Status(v) => udv_status_json(ts_ms, v),
        UdvPitDiagFrame::Res(v) => udv_res_json(ts_ms, v),
        UdvPitDiagFrame::Pipe(v) => udv_pipe_json(ts_ms, v),
        UdvPitDiagFrame::Health(v) => udv_health_json(ts_ms, v),
        UdvPitDiagFrame::FwInfo(v) => udv_fw_json(ts_ms, v),
        UdvPitDiagFrame::CanHealth(v) => udv_can_json(ts_ms, v),
        UdvPitDiagFrame::Calib(v) => udv_calib_json(ts_ms, v),
    }
}

} // verus!
