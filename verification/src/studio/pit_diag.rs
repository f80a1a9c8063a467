//! Pit-diag for the desktop front-end: the profile a session arms (one board
//! or all three at once), the events it emits for each decoded frame, and
//! the decisions of the arm handshake and the streaming task.
use vstd::prelude::*;
use crate::pit_diag::ecu::{self, EcuPitDiagFrame};
use crate::pit_diag::names::{
    ecu_fsm_state_name, ecu_fsm_state_ui, ecu_inv_state_name, ecu_inv_state_ui, ecu_last_fault_name,
    ecu_last_fault_ui, ecu_reset_cause_name, ecu_reset_cause_ui, fault_reason_name, fault_reason_ui,
    fsm_state_name, fsm_state_ui, jump_reason_name, jump_reason_ui, mode_lock_name, mode_lock_ui,
    udv_as_state_debug, udv_as_state_debug_string, udv_assi_debug, udv_assi_debug_string,
    udv_ebs_init_debug, udv_ebs_init_debug_string, udv_res_status_debug,
    udv_res_status_debug_string, udv_steer_motor_debug, udv_steer_motor_debug_string,
};
use crate::pit_diag::udv::{self, calib_error_name, calib_error_text, calib_phase_name, calib_phase_text, UdvPitDiagFrame};
use crate::pit_diag::{self as ams, PitDiagFrame, AMS_ACK_ID};
use crate::protocol::CanFrame;
use crate::studio::recv_errors::{benign_lowered, is_benign_recv_error, str_lowercase};
use crate::text::{dec, push_dec};

verus! {

/// How long the arm handshake waits for the board's ACK, in milliseconds.
pub const ACK_TIMEOUT_MS: u64 = 2000;

/// Per-recv timeout of the streaming task, in milliseconds.
pub const STREAM_POLL_TIMEOUT_MS: u64 = 50;

/// The arm request from the front-end.
pub struct PitDiagRequest {
    pub interface: String,
    pub channel: Option<String>,
    pub bitrate: u32,
    /// `"ams"`, `"ecu"`, `"udv"` or `"all"`; `"ams"` when absent.
    pub profile: String,
}

/// The profile a request names when it names none: `"ams"`.
pub fn default_profile() -> (s: String)
    ensures
        s@ == "ams"@,
{
    String::from_str("ams")
}

/// Which stream(s) a session arms and decodes.
#[derive(Clone, Copy, Debug, PartialEq, Eq, Structural)]
pub enum Profile {
    Ams,
    Ecu,
    Udv,
    /// All three boards side by side: every arm frame is sent and every
    /// frame is tried against all three decoders (their ids never overlap).
    All,
}

/// The profile a request string names, or the message shown for any other.
pub open spec fn profile_spec(s: Seq<char>) -> Result<Profile, Seq<char>> {
    if s == "ams"@ {
        Ok(Profile::Ams)
    } else if s == "ecu"@ {
        Ok(Profile::Ecu)
    } else if s == "udv"@ {
        Ok(Profile::Udv)
    } else if s == "all"@ {
        Ok(Profile::All)
    } else {
        Err("pit-diag is not implemented for profile '"@ + s + "' yet"@)
    }
}

/// The stream an arm frame addresses, as the wire carries it.
pub open spec fn frame_view(f: CanFrame) -> (u16, Seq<u8>) {
    (f.id, f.payload_view())
}

impl Profile {
    /// Parse the request's profile string.
    pub fn parse(s: &str) -> (r: Result<Profile, String>)
        ensures
            match (r, profile_spec(s@)) {
                (Ok(p), Ok(q)) => p == q,
                (Err(m), Err(t)) => m@ == t,
                _ => false,
            },
    {
        if crate::bootloader_fetch::str_eq(s, "ams") {
            Ok(Profile::Ams)
        } else if crate::bootloader_fetch::str_eq(s, "ecu") {
            Ok(Profile::Ecu)
        } else if crate::bootloader_fetch::str_eq(s, "udv") {
            Ok(Profile::Udv)
        } else if crate::bootloader_fetch::str_eq(s, "all") {
            Ok(Profile::All)
        } else {
            let mut m = String::from_str("pit-diag is not implemented for profile '");
            m.append(s);
            m.append("' yet");
            Err(m)
        }
    }

    /// The id this profile acknowledges arm/disarm commands on; none for
    /// uDV (sticky arm, no ACK) and for `All` (no single ACK to wait for).
    pub fn ack_id(self) -> (r: Option<u16>)
        ensures
            r == match self {
                Profile::Ams => Some(AMS_ACK_ID),
                Profile::Ecu => Some(ecu::ECU_ACK_ID),
                _ => None::<u16>,
            },
    {
        match self {
            Profile::Ams => Some(AMS_ACK_ID),
            Profile::Ecu => Some(ecu::ECU_ACK_ID),
            Profile::Udv | Profile::All => None,
        }
    }
}

/// The frames `arm_frames` sends, as `(id, payload)`: one per board, uDV
/// only when arming (it has no disarm frame), all of them for `All`.
pub open spec fn arm_frames_spec(p: Profile, enable: bool) -> Seq<(u16, Seq<u8>)> {
    let a = (ams::AMS_ARM_ID, ams::arm_payload(enable));
    let e = (ecu::ECU_ARM_ID, ams::arm_payload(enable));
    let u = (udv::UDV_ARM_ID, ams::arm_payload(true));
    match p {
        Profile::Ams => seq![a],
        Profile::Ecu => seq![e],
        Profile::Udv => if enable { seq![u] } else { Seq::empty() },
        Profile::All => if enable { seq![a, e, u] } else { seq![a, e] },
    }
}

/// Disarming never sends the uDV arm frame: the uDV firmware has no
/// disarm and clears its flag on reboot. Arming sends it exactly for the
/// uDV and `All` profiles.
pub proof fn lemma_disarm_spares_udv(p: Profile)
    ensures
        forall|i: int| 0 <= i < arm_frames_spec(p, false).len() ==> (#[trigger] arm_frames_spec(p, false)[i]).0
            != udv::UDV_ARM_ID,
        (exists|i: int| 0 <= i < arm_frames_spec(p, true).len() && (#[trigger] arm_frames_spec(p, true)[i]).0
            == udv::UDV_ARM_ID) <==> (p is Udv || p is All),
{
    if p is Udv || p is All {
        let last = arm_frames_spec(p, true).len() - 1;
        assert(arm_frames_spec(p, true)[last].0 == udv::UDV_ARM_ID);
    }
}

impl Profile {
    /// Arm (or disarm) frames for this profile.
    pub fn arm_frames(self, enable: bool) -> (v: Vec<CanFrame>)
        ensures
            v@.map_values(|f: CanFrame| frame_view(f)) == arm_frames_spec(self, enable),
            forall|i: int| 0 <= i < v@.len() ==> (#[trigger] v@[i]).wf(),
    {
        let mut v: Vec<CanFrame> = Vec::new();
        match self {
            Profile::Ams => {
                v.push(ams::build_arm_frame(enable));
            },
            Profile::Ecu => {
                v.push(ecu::build_arm_frame(enable));
            },
            Profile::Udv => {
                if enable {
                    v.push(udv::build_arm_frame());
                }
            },
            Profile::All => {
                v.push(ams::build_arm_frame(enable));
                v.push(ecu::build_arm_frame(enable));
                if enable {
                    v.push(udv::build_arm_frame());
                }
            },
        }
        assert(v@.map_values(|f: CanFrame| frame_view(f)) =~= arm_frames_spec(self, enable));
        v
    }
}

/// One decoded pit-diag frame as the front-end receives it: the library
/// frames with camelCase-ready field names and the enums named.
#[derive(Clone, Debug, PartialEq)]
pub enum PitDiagEvent {
    /// An arm/disarm acknowledgement (`true` after an arm).
    Ack {
        enabled: bool,
    },
    /// One cell-voltage frame.
    CellVoltage {
        frame_idx: u8,
        first_cell: u16,
        voltages_mv: [u16; 4],
    },
    /// One NTC-temperature frame.
    NtcTemp {
        frame_idx: u8,
        first_ntc: u16,
        temps_c: [i8; 8],
    },
    /// `0x6C0`, with the state, mode and fault reason named.
    FsmStatus {
        state: String,
        mode_locked: String,
        tsms: bool,
        dash_chg: bool,
        ams_ok: bool,
        pec_error_total: u16,
        fault_reason: String,
        fault_detail: u8,
    },
    /// `0x6C1` poll timing.
    PollTiming {
        last_v_poll_ms: u16,
        worst_v_poll_ms: u16,
        t_sweep_fail_mask: u32,
    },
    /// `0x6C2`; the 64-bit mask travels as a decimal string.
    BalanceMaskA {
        dcc_lo: String,
    },
    /// `0x6C3` mask high part and cycle counters.
    BalanceMaskB {
        dcc_hi: u32,
        cycles_total: u16,
        cycles_active: u16,
    },
    /// `0x6C4` boot diagnostics with the jump reason named.
    BootDiag {
        jump_reason: String,
        app_init_progress: u8,
        fdcan1_start_result: u32,
    },
    /// `0x6C5` post-mortem; `clean` when nothing crashed.
    PostMortem {
        stack_overflow_seen: bool,
        watermark_low_byte: u8,
        task_addr_lo: u32,
        malloc_failed_count: u16,
        clean: bool,
    },
    /// `0x6C6` firmware identity.
    FwId {
        version_major: u8,
        version_minor: u8,
        version_patch: u8,
        git_hash: [u8; 4],
        bl_node_id: u8,
    },
    /// `0x6C7` / `0x6C8` per-IC PEC counts.
    PerIcPec {
        first_ic: u8,
        valid: u8,
        counts: [u8; 8],
    },
    /// ECU `0x700` with the FSM and inverter states named.
    EcuStatus {
        fsm_state: String,
        inv_state: String,
        ev_2_3: bool,
        t11_8_9: bool,
        rtds_active: bool,
        ok_precharge: bool,
        start_button: bool,
        dv_mode: bool,
        torque_pct: u8,
        v_cell_min_mv: u16,
        torque_cmd: i16,
    },
    /// ECU `0x701` pedal channels.
    EcuPedals {
        apps1_raw: u16,
        apps2_raw: u16,
        brake_raw: u16,
        apps1_pct: u8,
        apps2_pct: u8,
    },
    /// ECU `0x705` brake pressure and percentage.
    EcuBrake {
        brake_pressure_dbar: u16,
        brake_pct: u8,
    },
    /// ECU `0x702` inverter values.
    EcuInverter {
        dc_bus_voltage: u16,
        inv_rpm: i32,
        inv_error: u8,
    },
    /// ECU `0x706` inverter temperatures.
    EcuInverterTemps {
        board_degc: i16,
        pwrstg_degc: i16,
        motor1_degc: i16,
        motor2_degc: i16,
    },
    /// ECU `0x703` firmware version and git prefix.
    EcuFwInfo {
        version_major: u8,
        version_minor: u8,
        version_patch: u8,
        git_hash: [u8; 4],
    },
    /// ECU `0x704` health, reset cause and last fault named.
    EcuHealth {
        free_heap: u16,
        min_free_heap: u16,
        task_control: bool,
        task_can_rx: bool,
        task_can_tx: bool,
        task_diag: bool,
        reset_cause: String,
        uptime_s: u8,
        last_fault: u8,
        last_fault_name: String,
    },
    /// ECU `0x707` driverless handshake.
    EcuDv {
        dv_r2d_req: bool,
        dv_cmd_fresh: bool,
        ts_active: bool,
        brake_over_limit: bool,
        r2d_confirm: bool,
        dv_torque_pct: u8,
        motor_rpm_mech: i16,
    },
    /// uDV `0x7A0`; the enums carry their `{:?}` names.
    UdvStatus {
        as_state: String,
        signals: u16,
        mission_id: i8,
        ebs_init: String,
        stub_mask: u8,
        assi: String,
        diag_armed: bool,
    },
    /// uDV `0x7A1` RES and steering.
    UdvRes {
        raw191: u8,
        res_status: String,
        bits: u8,
        radio_quality: u8,
        res_age_ms: u16,
        steer_motor: String,
        lws_status: u8,
    },
    /// uDV `0x7A2` /dv pipe.
    UdvPipe {
        dv_status: u8,
        dv_age_ms: u16,
        accel_cmd_pct: i8,
        steer_cmd: i8,
        ctrl_age_ms: u16,
        setup_bits: u8,
    },
    /// uDV `0x7A3` health.
    UdvHealth {
        free_heap_words: u16,
        min_free_heap_words: u16,
        task_mask: u8,
        flags: u8,
        stalled_task: i8,
        uptime_s: u8,
    },
    /// uDV `0x7A4` firmware identity.
    UdvFwInfo {
        git_hash: u32,
        stub_mask: u8,
        heap_size_kb: u8,
        uptime_s: u8,
    },
    /// uDV `0x7A5` CAN health.
    UdvCanHealth {
        flags: u8,
        last_error_code: u8,
        tx_err_count: u8,
        rx_err_count: u8,
        res_rx_count: u16,
        nmt_count: u8,
        ack_error: bool,
    },
    /// uDV `0x7A6` calibration status with phase and error named.
    UdvCalib {
        phase: u8,
        phase_name: String,
        error: u8,
        error_name: String,
        center_ddeg: i16,
        half_range_ddeg: i16,
        limit_ddeg: i16,
    },
}

/// [`PitDiagEvent`] with its strings taken as character sequences.
pub enum PitDiagEventView {
    Ack {
        enabled: bool,
    },
    CellVoltage {
        frame_idx: u8,
        first_cell: u16,
        voltages_mv: [u16; 4],
    },
    NtcTemp {
        frame_idx: u8,
        first_ntc: u16,
        temps_c: [i8; 8],
    },
    FsmStatus {
        state: Seq<char>,
        mode_locked: Seq<char>,
        tsms: bool,
        dash_chg: bool,
        ams_ok: bool,
        pec_error_total: u16,
        fault_reason: Seq<char>,
        fault_detail: u8,
    },
    PollTiming {
        last_v_poll_ms: u16,
        worst_v_poll_ms: u16,
        t_sweep_fail_mask: u32,
    },
    BalanceMaskA {
        dcc_lo: Seq<char>,
    },
    BalanceMaskB {
        dcc_hi: u32,
        cycles_total: u16,
        cycles_active: u16,
    },
    BootDiag {
        jump_reason: Seq<char>,
        app_init_progress: u8,
        fdcan1_start_result: u32,
    },
    PostMortem {
        stack_overflow_seen: bool,
        watermark_low_byte: u8,
        task_addr_lo: u32,
        malloc_failed_count: u16,
        clean: bool,
    },
    FwId {
        version_major: u8,
        version_minor: u8,
        version_patch: u8,
        git_hash: [u8; 4],
        bl_node_id: u8,
    },
    PerIcPec {
        first_ic: u8,
        valid: u8,
        counts: [u8; 8],
    },
    EcuStatus {
        fsm_state: Seq<char>,
        inv_state: Seq<char>,
        ev_2_3: bool,
        t11_8_9: bool,
        rtds_active: bool,
        ok_precharge: bool,
        start_button: bool,
        dv_mode: bool,
        torque_pct: u8,
        v_cell_min_mv: u16,
        torque_cmd: i16,
    },
    EcuPedals {
        apps1_raw: u16,
        apps2_raw: u16,
        brake_raw: u16,
        apps1_pct: u8,
        apps2_pct: u8,
    },
    EcuBrake {
        brake_pressure_dbar: u16,
        brake_pct: u8,
    },
    EcuInverter {
        dc_bus_voltage: u16,
        inv_rpm: i32,
        inv_error: u8,
    },
    EcuInverterTemps {
        board_degc: i16,
        pwrstg_degc: i16,
        motor1_degc: i16,
        motor2_degc: i16,
    },
    EcuFwInfo {
        version_major: u8,
        version_minor: u8,
        version_patch: u8,
        git_hash: [u8; 4],
    },
    EcuHealth {
        free_heap: u16,
        min_free_heap: u16,
        task_control: bool,
        task_can_rx: bool,
        task_can_tx: bool,
        task_diag: bool,
        reset_cause: Seq<char>,
        uptime_s: u8,
        last_fault: u8,
        last_fault_name: Seq<char>,
    },
    EcuDv {
        dv_r2d_req: bool,
        dv_cmd_fresh: bool,
        ts_active: bool,
        brake_over_limit: bool,
        r2d_confirm: bool,
        dv_torque_pct: u8,
        motor_rpm_mech: i16,
    },
    UdvStatus {
        as_state: Seq<char>,
        signals: u16,
        mission_id: i8,
        ebs_init: Seq<char>,
        stub_mask: u8,
        assi: Seq<char>,
        diag_armed: bool,
    },
    UdvRes {
        raw191: u8,
        res_status: Seq<char>,
        bits: u8,
        radio_quality: u8,
        res_age_ms: u16,
        steer_motor: Seq<char>,
        lws_status: u8,
    },
    UdvPipe {
        dv_status: u8,
        dv_age_ms: u16,
        accel_cmd_pct: i8,
        steer_cmd: i8,
        ctrl_age_ms: u16,
        setup_bits: u8,
    },
    UdvHealth {
        free_heap_words: u16,
        min_free_heap_words: u16,
        task_mask: u8,
        flags: u8,
        stalled_task: i8,
        uptime_s: u8,
    },
    UdvFwInfo {
        git_hash: u32,
        stub_mask: u8,
        heap_size_kb: u8,
        uptime_s: u8,
    },
    UdvCanHealth {
        flags: u8,
        last_error_code: u8,
        tx_err_count: u8,
        rx_err_count: u8,
        res_rx_count: u16,
        nmt_count: u8,
        ack_error: bool,
    },
    UdvCalib {
        phase: u8,
        phase_name: Seq<char>,
        error: u8,
        error_name: Seq<char>,
        center_ddeg: i16,
        half_range_ddeg: i16,
        limit_ddeg: i16,
    },
}

impl View for PitDiagEvent {
    type V = PitDiagEventView;

    open spec fn view(&self) -> PitDiagEventView {
        match self {
            PitDiagEvent::Ack { enabled } => PitDiagEventView::Ack { enabled: *enabled },
            PitDiagEvent::CellVoltage { frame_idx, first_cell, voltages_mv } => PitDiagEventView::CellVoltage { frame_idx: *frame_idx, first_cell: *first_cell, voltages_mv: *voltages_mv },
            PitDiagEvent::NtcTemp { frame_idx, first_ntc, temps_c } => PitDiagEventView::NtcTemp { frame_idx: *frame_idx, first_ntc: *first_ntc, temps_c: *temps_c },
            PitDiagEvent::FsmStatus { state, mode_locked, tsms, dash_chg, ams_ok, pec_error_total, fault_reason, fault_detail } => PitDiagEventView::FsmStatus { state: state@, mode_locked: mode_locked@, tsms: *tsms, dash_chg: *dash_chg, ams_ok: *ams_ok, pec_error_total: *pec_error_total, fault_reason: fault_reason@, fault_detail: *fault_detail },
            PitDiagEvent::PollTiming { last_v_poll_ms, worst_v_poll_ms, t_sweep_fail_mask } => PitDiagEventView::PollTiming { last_v_poll_ms: *last_v_poll_ms, worst_v_poll_ms: *worst_v_poll_ms, t_sweep_fail_mask: *t_sweep_fail_mask },
            PitDiagEvent::BalanceMaskA { dcc_lo } => PitDiagEventView::BalanceMaskA { dcc_lo: dcc_lo@ },
            PitDiagEvent::BalanceMaskB { dcc_hi, cycles_total, cycles_active } => PitDiagEventView::BalanceMaskB { dcc_hi: *dcc_hi, cycles_total: *cycles_total, cycles_active: *cycles_active },
            PitDiagEvent::BootDiag { jump_reason, app_init_progress, fdcan1_start_result } => PitDiagEventView::BootDiag { jump_reason: jump_reason@, app_init_progress: *app_init_progress, fdcan1_start_result: *fdcan1_start_result },
            PitDiagEvent::PostMortem { stack_overflow_seen, watermark_low_byte, task_addr_lo, malloc_failed_count, clean } => PitDiagEventView::PostMortem { stack_overflow_seen: *stack_overflow_seen, watermark_low_byte: *watermark_low_byte, task_addr_lo: *task_addr_lo, malloc_failed_count: *malloc_failed_count, clean: *clean },
            PitDiagEvent::FwId { version_major, version_minor, version_patch, git_hash, bl_node_id } => PitDiagEventView::FwId { version_major: *version_major, version_minor: *version_minor, version_patch: *version_patch, git_hash: *git_hash, bl_node_id: *bl_node_id },
            PitDiagEvent::PerIcPec { first_ic, valid, counts } => PitDiagEventView::PerIcPec { first_ic: *first_ic, valid: *valid, counts: *counts },
            PitDiagEvent::EcuStatus { fsm_state, inv_state, ev_2_3, t11_8_9, rtds_active, ok_precharge, start_button, dv_mode, torque_pct, v_cell_min_mv, torque_cmd } => PitDiagEventView::EcuStatus { fsm_state: fsm_state@, inv_state: inv_state@, ev_2_3: *ev_2_3, t11_8_9: *t11_8_9, rtds_active: *rtds_active, ok_precharge: *ok_precharge, start_button: *start_button, dv_mode: *dv_mode, torque_pct: *torque_pct, v_cell_min_mv: *v_cell_min_mv, torque_cmd: *torque_cmd },
            PitDiagEvent::EcuPedals { apps1_raw, apps2_raw, brake_raw, apps1_pct, apps2_pct } => PitDiagEventView::EcuPedals { apps1_raw: *apps1_raw, apps2_raw: *apps2_raw, brake_raw: *brake_raw, apps1_pct: *apps1_pct, apps2_pct: *apps2_pct },
            PitDiagEvent::EcuBrake { brake_pressure_dbar, brake_pct } => PitDiagEventView::EcuBrake { brake_pressure_dbar: *brake_pressure_dbar, brake_pct: *brake_pct },
            PitDiagEvent::EcuInverter { dc_bus_voltage, inv_rpm, inv_error } => PitDiagEventView::EcuInverter { dc_bus_voltage: *dc_bus_voltage, inv_rpm: *inv_rpm, inv_error: *inv_error },
            PitDiagEvent::EcuInverterTemps { board_degc, pwrstg_degc, motor1_degc, motor2_degc } => PitDiagEventView::EcuInverterTemps { board_degc: *board_degc, pwrstg_degc: *pwrstg_degc, motor1_degc: *motor1_degc, motor2_degc: *motor2_degc },
            PitDiagEvent::EcuFwInfo { version_major, version_minor, version_patch, git_hash } => PitDiagEventView::EcuFwInfo { version_major: *version_major, version_minor: *version_minor, version_patch: *version_patch, git_hash: *git_hash },
            PitDiagEvent::EcuHealth { free_heap, min_free_heap, task_control, task_can_rx, task_can_tx, task_diag, reset_cause, uptime_s, last_fault, last_fault_name } => PitDiagEventView::EcuHealth { free_heap: *free_heap, min_free_heap: *min_free_heap, task_control: *task_control, task_can_rx: *task_can_rx, task_can_tx: *task_can_tx, task_diag: *task_diag, reset_cause: reset_cause@, uptime_s: *uptime_s, last_fault: *last_fault, last_fault_name: last_fault_name@ },
            PitDiagEvent::EcuDv { dv_r2d_req, dv_cmd_fresh, ts_active, brake_over_limit, r2d_confirm, dv_torque_pct, motor_rpm_mech } => PitDiagEventView::EcuDv { dv_r2d_req: *dv_r2d_req, dv_cmd_fresh: *dv_cmd_fresh, ts_active: *ts_active, brake_over_limit: *brake_over_limit, r2d_confirm: *r2d_confirm, dv_torque_pct: *dv_torque_pct, motor_rpm_mech: *motor_rpm_mech },
            PitDiagEvent::UdvStatus { as_state, signals, mission_id, ebs_init, stub_mask, assi, diag_armed } => PitDiagEventView::UdvStatus { as_state: as_state@, signals: *signals, mission_id: *mission_id, ebs_init: ebs_init@, stub_mask: *stub_mask, assi: assi@, diag_armed: *diag_armed },
            PitDiagEvent::UdvRes { raw191, res_status, bits, radio_quality, res_age_ms, steer_motor, lws_status } => PitDiagEventView::UdvRes { raw191: *raw191, res_status: res_status@, bits: *bits, radio_quality: *radio_quality, res_age_ms: *res_age_ms, steer_motor: steer_motor@, lws_status: *lws_status },
            PitDiagEvent::UdvPipe { dv_status, dv_age_ms, accel_cmd_pct, steer_cmd, ctrl_age_ms, setup_bits } => PitDiagEventView::UdvPipe { dv_status: *dv_status, dv_age_ms: *dv_age_ms, accel_cmd_pct: *accel_cmd_pct, steer_cmd: *steer_cmd, ctrl_age_ms: *ctrl_age_ms, setup_bits: *setup_bits },
            PitDiagEvent::UdvHealth { free_heap_words, min_free_heap_words, task_mask, flags, stalled_task, uptime_s } => PitDiagEventView::UdvHealth { free_heap_words: *free_heap_words, min_free_heap_words: *min_free_heap_words, task_mask: *task_mask, flags: *flags, stalled_task: *stalled_task, uptime_s: *uptime_s },
            PitDiagEvent::UdvFwInfo { git_hash, stub_mask, heap_size_kb, uptime_s } => PitDiagEventView::UdvFwInfo { git_hash: *git_hash, stub_mask: *stub_mask, heap_size_kb: *heap_size_kb, uptime_s: *uptime_s },
            PitDiagEvent::UdvCanHealth { flags, last_error_code, tx_err_count, rx_err_count, res_rx_count, nmt_count, ack_error } => PitDiagEventView::UdvCanHealth { flags: *flags, last_error_code: *last_error_code, tx_err_count: *tx_err_count, rx_err_count: *rx_err_count, res_rx_count: *res_rx_count, nmt_count: *nmt_count, ack_error: *ack_error },
            PitDiagEvent::UdvCalib { phase, phase_name, error, error_name, center_ddeg, half_range_ddeg, limit_ddeg } => PitDiagEventView::UdvCalib { phase: *phase, phase_name: phase_name@, error: *error, error_name: error_name@, center_ddeg: *center_ddeg, half_range_ddeg: *half_range_ddeg, limit_ddeg: *limit_ddeg },
        }
    }
}

/// The event a decoded AMS frame becomes.
pub open spec fn library_event(frame: PitDiagFrame) -> PitDiagEventView {
    match frame {
        PitDiagFrame::Ack { enabled } => PitDiagEventView::Ack { enabled },
        PitDiagFrame::CellVoltage(c) => PitDiagEventView::CellVoltage {
            frame_idx: c.frame_idx,
            first_cell: c.first_cell,
            voltages_mv: c.voltages_mv,
        },
        PitDiagFrame::NtcTemp(t) => PitDiagEventView::NtcTemp {
            frame_idx: t.frame_idx,
            first_ntc: t.first_ntc,
            temps_c: t.temps_c,
        },
        PitDiagFrame::FsmStatus(f) => PitDiagEventView::FsmStatus {
            state: fsm_state_ui(f.state),
            mode_locked: mode_lock_ui(f.mode_locked),
            tsms: f.tsms,
            dash_chg: f.dash_chg,
            ams_ok: f.ams_ok,
            pec_error_total: f.pec_error_total,
            fault_reason: fault_reason_ui(f.fault_reason),
            fault_detail: f.fault_detail,
        },
        PitDiagFrame::PollTiming(p) => PitDiagEventView::PollTiming {
            last_v_poll_ms: p.last_v_poll_ms,
            worst_v_poll_ms: p.worst_v_poll_ms,
            t_sweep_fail_mask: p.t_sweep_fail_mask,
        },
        PitDiagFrame::BalanceMaskA(b) => PitDiagEventView::BalanceMaskA { dcc_lo: dec(b.dcc_lo as nat) },
        PitDiagFrame::BalanceMaskB(b) => PitDiagEventView::BalanceMaskB {
            dcc_hi: b.dcc_hi,
            cycles_total: b.cycles_total,
            cycles_active: b.cycles_active,
        },
        PitDiagFrame::BootDiag(b) => PitDiagEventView::BootDiag {
            jump_reason: jump_reason_ui(b.jump_reason),
            app_init_progress: b.app_init_progress,
            fdcan1_start_result: b.fdcan1_start_result,
        },
        PitDiagFrame::PostMortem(p) => PitDiagEventView::PostMortem {
            stack_overflow_seen: p.stack_overflow_seen,
            watermark_low_byte: p.watermark_low_byte,
            task_addr_lo: p.task_addr_lo,
            malloc_failed_count: p.malloc_failed_count,
            clean: !p.stack_overflow_seen && p.task_addr_lo == 0 && p.malloc_failed_count == 0,
        },
        PitDiagFrame::FwId(f) => PitDiagEventView::FwId {
            version_major: f.version_major,
            version_minor: f.version_minor,
            version_patch: f.version_patch,
            git_hash: f.git_hash,
            bl_node_id: f.bl_node_id,
        },
        PitDiagFrame::PerIcPec(p) => PitDiagEventView::PerIcPec {
            first_ic: p.first_ic,
            valid: p.valid,
            counts: p.counts,
        },
    }
}

/// The event a decoded ECU frame becomes.
pub open spec fn ecu_event(frame: EcuPitDiagFrame) -> PitDiagEventView {
    match frame {
        EcuPitDiagFrame::Ack { enabled } => PitDiagEventView::Ack { enabled },
        EcuPitDiagFrame::Status(s) => PitDiagEventView::EcuStatus {
            fsm_state: ecu_fsm_state_ui(s.fsm_state),
            inv_state: ecu_inv_state_ui(s.inv_state),
            ev_2_3: s.ev_2_3,
            t11_8_9: s.t11_8_9,
            rtds_active: s.rtds_active,
            ok_precharge: s.ok_precharge,
            start_button: s.start_button,
            dv_mode: s.dv_mode,
            torque_pct: s.torque_pct,
            v_cell_min_mv: s.v_cell_min_mv,
            torque_cmd: s.torque_cmd,
        },
        EcuPitDiagFrame::Pedals(p) => PitDiagEventView::EcuPedals {
            apps1_raw: p.apps1_raw,
            apps2_raw: p.apps2_raw,
            brake_raw: p.brake_raw,
            apps1_pct: p.apps1_pct,
            apps2_pct: p.apps2_pct,
        },
        EcuPitDiagFrame::Brake(b) => PitDiagEventView::EcuBrake {
            brake_pressure_dbar: b.brake_pressure_dbar,
            brake_pct: b.brake_pct,
        },
        EcuPitDiagFrame::Inverter(i) => PitDiagEventView::EcuInverter {
            dc_bus_voltage: i.dc_bus_voltage,
            inv_rpm: i.inv_rpm,
            inv_error: i.inv_error,
        },
        EcuPitDiagFrame::InverterTemps(t) => PitDiagEventView::EcuInverterTemps {
            board_degc: t.board_degc,
            pwrstg_degc: t.pwrstg_degc,
            motor1_degc: t.motor1_degc,
            motor2_degc: t.motor2_degc,
        },
        EcuPitDiagFrame::FwInfo(f) => PitDiagEventView::EcuFwInfo {
            version_major: f.fw_major,
            version_minor: f.fw_minor,
            version_patch: f.fw_patch,
            git_hash: f.git_hash,
        },
        EcuPitDiagFrame::Health(h) => PitDiagEventView::EcuHealth {
            free_heap: h.free_heap,
            min_free_heap: h.min_free_heap,
            task_control: h.task_control,
            task_can_rx: h.task_can_rx,
            task_can_tx: h.task_can_tx,
            task_diag: h.task_diag,
            reset_cause: ecu_reset_cause_ui(h.reset_cause),
            uptime_s: h.uptime_s,
            last_fault: h.last_fault,
            last_fault_name: ecu_last_fault_ui(h.last_fault),
        },
        EcuPitDiagFrame::Dv(d) => PitDiagEventView::EcuDv {
            dv_r2d_req: d.dv_r2d_req,
            dv_cmd_fresh: d.dv_cmd_fresh,
            ts_active: d.ts_active,
            brake_over_limit: d.brake_over_limit,
            r2d_confirm: d.r2d_confirm,
            dv_torque_pct: d.dv_torque_pct,
            motor_rpm_mech: d.motor_rpm_mech,
        },
    }
}

/// The event a decoded uDV frame becomes (enums by their `{:?}` names).
pub open spec fn udv_event(frame: UdvPitDiagFrame) -> PitDiagEventView {
    match frame {
        UdvPitDiagFrame::Status(s) => PitDiagEventView::UdvStatus {
            as_state: udv_as_state_debug(s.as_state),
            signals: s.signals,
            mission_id: s.mission_id,
            ebs_init: udv_ebs_init_debug(s.ebs_init),
            stub_mask: s.stub_mask,
            assi: udv_assi_debug(s.assi),
            diag_armed: s.diag_armed,
        },
        UdvPitDiagFrame::Res(r) => PitDiagEventView::UdvRes {
            raw191: r.raw_0x191,
            res_status: udv_res_status_debug(r.res_status),
            bits: r.bits,
            radio_quality: r.radio_quality,
            res_age_ms: r.res_age_ms,
            steer_motor: udv_steer_motor_debug(r.steer_motor),
            lws_status: r.lws_status,
        },
        UdvPitDiagFrame::Pipe(p) => PitDiagEventView::UdvPipe {
            dv_status: p.dv_status,
            dv_age_ms: p.dv_age_ms,
            accel_cmd_pct: p.accel_cmd_pct,
            steer_cmd: p.steer_cmd,
            ctrl_age_ms: p.ctrl_age_ms,
            setup_bits: p.setup_bits,
        },
        UdvPitDiagFrame::Health(h) => PitDiagEventView::UdvHealth {
            free_heap_words: h.free_heap_words,
            min_free_heap_words: h.min_free_heap_words,
            task_mask: h.task_mask,
            flags: h.flags,
            stalled_task: h.stalled_task,
            uptime_s: h.uptime_s,
        },
        UdvPitDiagFrame::FwInfo(f) => PitDiagEventView::UdvFwInfo {
            git_hash: f.git_hash,
            stub_mask: f.stub_mask,
            heap_size_kb: f.heap_size_kb,
            uptime_s: f.uptime_s,
        },
        UdvPitDiagFrame::CanHealth(c) => PitDiagEventView::UdvCanHealth {
            flags: c.flags,
            last_error_code: c.last_error_code,
            tx_err_count: c.tx_err_count,
            rx_err_count: c.rx_err_count,
            res_rx_count: c.res_rx_count,
            nmt_count: c.nmt_count,
            ack_error: c.ack_error,
        },
        UdvPitDiagFrame::Calib(c) => PitDiagEventView::UdvCalib {
            phase: c.phase,
            phase_name: calib_phase_text(c.phase),
            error: c.error,
            error_name: calib_error_text(c.error),
            center_ddeg: c.center_ddeg,
            half_range_ddeg: c.half_range_ddeg,
            limit_ddeg: c.limit_ddeg,
        },
    }
}

impl PitDiagEvent {
    /// Map a decoded AMS frame to its event.
    pub fn from_library(frame: PitDiagFrame) -> (ev: PitDiagEvent)
        ensures
            ev@ == library_event(frame),
    {
        match frame {
            PitDiagFrame::Ack { enabled } => PitDiagEvent::Ack { enabled },
            PitDiagFrame::CellVoltage(c) => PitDiagEvent::CellVoltage {
                frame_idx: c.frame_idx,
                first_cell: c.first_cell,
                voltages_mv: c.voltages_mv,
            },
            PitDiagFrame::NtcTemp(t) => PitDiagEvent::NtcTemp {
                frame_idx: t.frame_idx,
                first_ntc: t.first_ntc,
                temps_c: t.temps_c,
            },
            PitDiagFrame::FsmStatus(f) => PitDiagEvent::FsmStatus {
                state: fsm_state_name(f.state),
                mode_locked: mode_lock_name(f.mode_locked),
                tsms: f.tsms,
                dash_chg: f.dash_chg,
                ams_ok: f.ams_ok,
                pec_error_total: f.pec_error_total,
                fault_reason: fault_reason_name(f.fault_reason),
                fault_detail: f.fault_detail,
            },
            PitDiagFrame::PollTiming(p) => PitDiagEvent::PollTiming {
                last_v_poll_ms: p.last_v_poll_ms,
                worst_v_poll_ms: p.worst_v_poll_ms,
                t_sweep_fail_mask: p.t_sweep_fail_mask,
            },
            PitDiagFrame::BalanceMaskA(b) => {
                // The full 64-bit mask as a decimal string: a JSON number
                // would lose precision above 2^53 on the JavaScript side.
                let mut dcc_lo = String::new();
                push_dec(&mut dcc_lo, b.dcc_lo);
                assert(dcc_lo@ =~= dec(b.dcc_lo as nat));
                PitDiagEvent::BalanceMaskA { dcc_lo }
            },
            PitDiagFrame::BalanceMaskB(b) => PitDiagEvent::BalanceMaskB {
                dcc_hi: b.dcc_hi,
                cycles_total: b.cycles_total,
                cycles_active: b.cycles_active,
            },
            PitDiagFrame::BootDiag(b) => PitDiagEvent::BootDiag {
                jump_reason: jump_reason_name(b.jump_reason),
                app_init_progress: b.app_init_progress,
                fdcan1_start_result: b.fdcan1_start_result,
            },
            PitDiagFrame::PostMortem(pm) => PitDiagEvent::PostMortem {
                stack_overflow_seen: pm.stack_overflow_seen,
                watermark_low_byte: pm.watermark_low_byte,
                task_addr_lo: pm.task_addr_lo,
                malloc_failed_count: pm.malloc_failed_count,
                clean: pm.is_clean(),
            },
            PitDiagFrame::FwId(f) => PitDiagEvent::FwId {
                version_major: f.version_major,
                version_minor: f.version_minor,
                version_patch: f.version_patch,
                git_hash: f.git_hash,
                bl_node_id: f.bl_node_id,
            },
            PitDiagFrame::PerIcPec(p) => PitDiagEvent::PerIcPec {
                first_ic: p.first_ic,
                valid: p.valid,
                counts: p.counts,
            },
        }
    }

    /// Map a decoded ECU frame to its event.
    pub fn from_ecu(frame: EcuPitDiagFrame) -> (ev: PitDiagEvent)
        ensures
            ev@ == ecu_event(frame),
    {
        match frame {
            EcuPitDiagFrame::Ack { enabled } => PitDiagEvent::Ack { enabled },
            EcuPitDiagFrame::Status(s) => PitDiagEvent::EcuStatus {
                fsm_state: ecu_fsm_state_name(s.fsm_state),
                inv_state: ecu_inv_state_name(s.inv_state),
                ev_2_3: s.ev_2_3,
                t11_8_9: s.t11_8_9,
                rtds_active: s.rtds_active,
                ok_precharge: s.ok_precharge,
                start_button: s.start_button,
                dv_mode: s.dv_mode,
                torque_pct: s.torque_pct,
                v_cell_min_mv: s.v_cell_min_mv,
                torque_cmd: s.torque_cmd,
            },
            EcuPitDiagFrame::Pedals(p) => PitDiagEvent::EcuPedals {
                apps1_raw: p.apps1_raw,
                apps2_raw: p.apps2_raw,
                brake_raw: p.brake_raw,
                apps1_pct: p.apps1_pct,
                apps2_pct: p.apps2_pct,
            },
            EcuPitDiagFrame::Brake(b) => PitDiagEvent::EcuBrake {
                brake_pressure_dbar: b.brake_pressure_dbar,
                brake_pct: b.brake_pct,
            },
            EcuPitDiagFrame::Inverter(i) => PitDiagEvent::EcuInverter {
                dc_bus_voltage: i.dc_bus_voltage,
                inv_rpm: i.inv_rpm,
                inv_error: i.inv_error,
            },
            EcuPitDiagFrame::InverterTemps(t) => PitDiagEvent::EcuInverterTemps {
                board_degc: t.board_degc,
                pwrstg_degc: t.pwrstg_degc,
                motor1_degc: t.motor1_degc,
                motor2_degc: t.motor2_degc,
            },
            EcuPitDiagFrame::FwInfo(f) => PitDiagEvent::EcuFwInfo {
                version_major: f.fw_major,
                version_minor: f.fw_minor,
                version_patch: f.fw_patch,
                git_hash: f.git_hash,
            },
            EcuPitDiagFrame::Health(h) => PitDiagEvent::EcuHealth {
                free_heap: h.free_heap,
                min_free_heap: h.min_free_heap,
                task_control: h.task_control,
                task_can_rx: h.task_can_rx,
                task_can_tx: h.task_can_tx,
                task_diag: h.task_diag,
                reset_cause: ecu_reset_cause_name(h.reset_cause),
                uptime_s: h.uptime_s,
                last_fault: h.last_fault,
                last_fault_name: ecu_last_fault_name(h.last_fault),
            },
            EcuPitDiagFrame::Dv(d) => PitDiagEvent::EcuDv {
                dv_r2d_req: d.dv_r2d_req,
                dv_cmd_fresh: d.dv_cmd_fresh,
                ts_active: d.ts_active,
                brake_over_limit: d.brake_over_limit,
                r2d_confirm: d.r2d_confirm,
                dv_torque_pct: d.dv_torque_pct,
                motor_rpm_mech: d.motor_rpm_mech,
            },
        }
    }

    /// Map a decoded uDV frame to its event.
    pub fn from_udv(frame: UdvPitDiagFrame) -> (ev: PitDiagEvent)
        ensures
            ev@ == udv_event(frame),
    {
        match frame {
            UdvPitDiagFrame::Status(s) => PitDiagEvent::UdvStatus {
                as_state: udv_as_state_debug_string(s.as_state),
                signals: s.signals,
                mission_id: s.mission_id,
                ebs_init: udv_ebs_init_debug_string(s.ebs_init),
                stub_mask: s.stub_mask,
                assi: udv_assi_debug_string(s.assi),
                diag_armed: s.diag_armed,
            },
            UdvPitDiagFrame::Res(r) => PitDiagEvent::UdvRes {
                raw191: r.raw_0x191,
                res_status: udv_res_status_debug_string(r.res_status),
                bits: r.bits,
                radio_quality: r.radio_quality,
                res_age_ms: r.res_age_ms,
                steer_motor: udv_steer_motor_debug_string(r.steer_motor),
                lws_status: r.lws_status,
            },
            UdvPitDiagFrame::Pipe(p) => PitDiagEvent::UdvPipe {
                dv_status: p.dv_status,
                dv_age_ms: p.dv_age_ms,
                accel_cmd_pct: p.accel_cmd_pct,
                steer_cmd: p.steer_cmd,
                ctrl_age_ms: p.ctrl_age_ms,
                setup_bits: p.setup_bits,
            },
            UdvPitDiagFrame::Health(h) => PitDiagEvent::UdvHealth {
                free_heap_words: h.free_heap_words,
                min_free_heap_words: h.min_free_heap_words,
                task_mask: h.task_mask,
                flags: h.flags,
                stalled_task: h.stalled_task,
                uptime_s: h.uptime_s,
            },
            UdvPitDiagFrame::FwInfo(f) => PitDiagEvent::UdvFwInfo {
                git_hash: f.git_hash,
                stub_mask: f.stub_mask,
                heap_size_kb: f.heap_size_kb,
                uptime_s: f.uptime_s,
            },
            UdvPitDiagFrame::CanHealth(c) => PitDiagEvent::UdvCanHealth {
                flags: c.flags,
                last_error_code: c.last_error_code,
                tx_err_count: c.tx_err_count,
                rx_err_count: c.rx_err_count,
                res_rx_count: c.res_rx_count,
                nmt_count: c.nmt_count,
                ack_error: c.ack_error,
            },
            UdvPitDiagFrame::Calib(c) => PitDiagEvent::UdvCalib {
                phase: c.phase,
                phase_name: String::from_str(calib_phase_name(c.phase)),
                error: c.error,
                error_name: String::from_str(calib_error_name(c.error)),
                center_ddeg: c.center_ddeg,
                half_range_ddeg: c.half_range_ddeg,
                limit_ddeg: c.limit_ddeg,
            },
        }
    }
}

/// The event `profile` decodes a frame into: the profile's own decoder, or
/// for `All` the ECU, AMS and uDV decoders in that order (their ids never
/// overlap, so at most one matches).
pub open spec fn decode_event_spec(p: Profile, id: u16, payload: Seq<u8>) -> Option<PitDiagEventView> {
    let a = match ams::decode_spec(id, payload) {
        Some(f) => Some(library_event(f)),
        None => None,
    };
    let e = match ecu::decode_spec(id, payload) {
        Some(f) => Some(ecu_event(f)),
        None => None,
    };
    let u = match udv::decode_spec(id, payload) {
        Some(f) => Some(udv_event(f)),
        None => None,
    };
    match p {
        Profile::Ams => a,
        Profile::Ecu => e,
        Profile::Udv => u,
        Profile::All => if e is Some {
            e
        } else if a is Some {
            a
        } else {
            u
        },
    }
}

/// An optional event, taken by its view.
pub open spec fn event_opt_view(r: Option<PitDiagEvent>) -> Option<PitDiagEventView> {
    match r {
        Some(e) => Some(e@),
        None => None,
    }
}

impl Profile {
    /// Decode a frame into this profile's event, or `None` when the frame is
    /// not part of its stream.
    pub fn decode_event(self, frame: &CanFrame) -> (r: Option<PitDiagEvent>)
        requires
            frame.wf(),
        ensures
            event_opt_view(r) == decode_event_spec(self, frame.id, frame.payload_view()),
    {
        match self {
            Profile::Ams => match ams::decode_frame(frame) {
                Some(f) => Some(PitDiagEvent::from_library(f)),
                None => None,
            },
            Profile::Ecu => match ecu::decode_frame(frame) {
                Some(f) => Some(PitDiagEvent::from_ecu(f)),
                None => None,
            },
            Profile::Udv => match udv::decode_frame(frame) {
                Some(f) => Some(PitDiagEvent::from_udv(f)),
                None => None,
            },
            Profile::All => match ecu::decode_frame(frame) {
                Some(f) => Some(PitDiagEvent::from_ecu(f)),
                None => match ams::decode_frame(frame) {
                    Some(f) => Some(PitDiagEvent::from_library(f)),
                    None => match udv::decode_frame(frame) {
                        Some(f) => Some(PitDiagEvent::from_udv(f)),
                        None => None,
                    },
                },
            },
        }
    }
}

// ---- Session lifecycle ----

/// Lifecycle status of a pit-diag session.
#[derive(Clone, Debug, PartialEq)]
pub enum PitDiagStatus {
    /// The board ACKed (or, for uDV and `All`, the arm frames went out);
    /// the streaming task is running.
    Armed { profile: String },
    /// The streaming task exited cleanly.
    Stopped,
    /// The streaming task hit a bus or delivery error and stopped.
    Error { message: String },
}

/// What a frame received during the arm handshake means: `Some(enabled)`
/// when it is an ACK on the profile's ACK id (it is forwarded to the
/// front-end, and an `enabled` one ends the wait), `None` otherwise.
pub open spec fn ack_seen_spec(p: Profile, ack_id: u16, id: u16, payload: Seq<u8>) -> Option<bool> {
    if id == ack_id {
        match decode_event_spec(p, id, payload) {
            Some(PitDiagEventView::Ack { enabled }) => Some(enabled),
            _ => None,
        }
    } else {
        None
    }
}

/// Classify a frame received while waiting for the arm ACK.
pub fn ack_seen(profile: Profile, ack_id: u16, frame: &CanFrame) -> (r: Option<bool>)
    requires
        frame.wf(),
    ensures
        r == ack_seen_spec(profile, ack_id, frame.id, frame.payload_view()),
{
    if frame.id != ack_id {
        return None;
    }
    match profile.decode_event(frame) {
        Some(PitDiagEvent::Ack { enabled }) => Some(enabled),
        _ => None,
    }
}

/// Message for a `recv` failure during the ACK wait that is not an empty
/// poll window.
pub fn ack_wait_error(err: &str) -> (m: String)
    ensures
        m@ == "waiting for ACK: "@ + err@,
{
    let mut m = String::from_str("waiting for ACK: ");
    m.append(err);
    m
}

/// Outcome of the ACK wait once it ends: success only if the last ACK seen
/// confirmed the arm.
pub fn ack_wait_result(acked_enabled: bool) -> (r: Result<(), String>)
    ensures
        acked_enabled <==> r is Ok,
        r matches Err(m) ==> m@
            == "no ACK from the board within 2000ms — is it on the bus, with pit-diag firmware?"@,
{
    if acked_enabled {
        Ok(())
    } else {
        Err(String::from_str("no ACK from the board within 2000ms — is it on the bus, with pit-diag firmware?"))
    }
}

/// What happened while waiting for the arm ACK.
pub enum AckWaitEvent {
    /// A frame arrived.
    Frame(CanFrame),
    /// The receive failed with this error text.
    RecvFailed(String),
}

/// One step of the ACK wait: whether an enabling ACK has been seen, the
/// ACK to show the front-end at once (if any), and how the wait ends
/// (`None` while it goes on).
pub struct AckWaitStep {
    pub acked_enabled: bool,
    pub emit: Option<bool>,
    pub outcome: Option<Result<(), String>>,
}

/// Handle one event of the ACK wait: an ACK on `ack_id` records whether
/// it enables, is shown at once, and ends the wait when it does; other
/// frames are ignored; an empty poll window is routine, any other
/// receive error ends the wait with that error.
pub fn ack_wait_step(profile: Profile, ack_id: u16, acked_enabled: bool, event: AckWaitEvent) -> (st: AckWaitStep)
    requires
        event matches AckWaitEvent::Frame(f) ==> f.wf(),
    ensures
        event matches AckWaitEvent::Frame(f) ==> match ack_seen_spec(profile, ack_id, f.id, f.payload_view()) {
            Some(en) => st.acked_enabled == en && st.emit == Some(en) && (if en {
                st.outcome == Some(Ok::<(), String>(()))
            } else {
                st.outcome is None
            }),
            None => st.acked_enabled == acked_enabled && st.emit is None && st.outcome is None,
        },
        event matches AckWaitEvent::RecvFailed(m) ==> st.acked_enabled == acked_enabled && st.emit is None && (if benign_lowered(
            str_lowercase(m@),
        ) {
            st.outcome is None
        } else {
            st.outcome matches Some(Err(e)) && e@ == "waiting for ACK: "@ + m@
        }),
{
    match event {
        AckWaitEvent::Frame(f) => match ack_seen(profile, ack_id, &f) {
            Some(en) => AckWaitStep {
                acked_enabled: en,
                emit: Some(en),
                outcome: if en { Some(Ok(())) } else { None },
            },
            None => AckWaitStep { acked_enabled, emit: None, outcome: None },
        },
        AckWaitEvent::RecvFailed(m) => {
            if is_benign_recv_error(m.as_str()) {
                AckWaitStep { acked_enabled, emit: None, outcome: None }
            } else {
                AckWaitStep { acked_enabled, emit: None, outcome: Some(Err(ack_wait_error(m.as_str()))) }
            }
        },
    }
}

/// Check the ACK wait's deadline before the next receive: once
/// `elapsed_ms` reaches the 2 s window the wait ends, with success only
/// if an enabling ACK was seen.
pub fn ack_wait_deadline(acked_enabled: bool, elapsed_ms: u64) -> (r: Option<Result<(), String>>)
    ensures
        elapsed_ms < ACK_TIMEOUT_MS <==> r is None,
        r matches Some(o) ==> (o is Ok <==> acked_enabled),
        r matches Some(Err(m)) ==> m@ == "no ACK from the board within 2000ms — is it on the bus, with pit-diag firmware?"@,
{
    if elapsed_ms < ACK_TIMEOUT_MS {
        None
    } else {
        Some(ack_wait_result(acked_enabled))
    }
}

/// May a steering-calibration trigger be sent in the current session
/// (`armed` is the running session's profile, if any)?
pub fn calibrate_check(armed: Option<Profile>) -> (r: Result<(), String>)
    ensures
        r is Ok <==> armed == Some(Profile::Udv),
        armed is None ==> (r matches Err(m) && m@
            == "no pit-diag session is armed — arm the uDV telemetry first"@),
        (armed matches Some(p) && p != Profile::Udv) ==> (r matches Err(m) && m@
            == "steering calibration is a uDV action — switch to the uDV profile and arm it"@),
{
    match armed {
        None => Err(String::from_str("no pit-diag session is armed — arm the uDV telemetry first")),
        Some(Profile::Udv) => Ok(()),
        Some(_) => Err(String::from_str("steering calibration is a uDV action — switch to the uDV profile and arm it")),
    }
}

/// The disarm frames a disable request sends: those of the named profile,
/// nothing when the profile does not parse.
pub fn disarm_frames(profile: &str) -> (v: Vec<CanFrame>)
    ensures
        match profile_spec(profile@) {
            Ok(p) => v@.map_values(|f: CanFrame| frame_view(f)) == arm_frames_spec(p, false),
            Err(_) => v@.len() == 0,
        },
{
    match Profile::parse(profile) {
        Ok(p) => p.arm_frames(false),
        Err(_) => Vec::new(),
    }
}

/// The `All` profile decodes a frame exactly as the board that owns it:
/// whenever one of the three single-board profiles yields an event, `All`
/// yields that same event, and `All` yields nothing any of them does not.
pub proof fn lemma_all_profile_agrees(id: u16, payload: Seq<u8>)
    ensures
        decode_event_spec(Profile::Ams, id, payload) is Some ==> decode_event_spec(Profile::All, id, payload)
            == decode_event_spec(Profile::Ams, id, payload),
        decode_event_spec(Profile::Ecu, id, payload) is Some ==> decode_event_spec(Profile::All, id, payload)
            == decode_event_spec(Profile::Ecu, id, payload),
        decode_event_spec(Profile::Udv, id, payload) is Some ==> decode_event_spec(Profile::All, id, payload)
            == decode_event_spec(Profile::Udv, id, payload),
        decode_event_spec(Profile::All, id, payload) is Some ==> decode_event_spec(Profile::Ams, id, payload) is Some
            || decode_event_spec(Profile::Ecu, id, payload) is Some || decode_event_spec(Profile::Udv, id, payload) is Some,
{
    crate::pit_diag::laws::lemma_streams_independent(id, payload);
}

/// Each AMS event carries the decoded frame field by field: numbers unchanged, enums by their front-end names, the balance mask low half in decimal, and a post-mortem flagged clean exactly when nothing was recorded.
pub proof fn lemma_library_event_fields(frame: PitDiagFrame)
    ensures
        library_event(frame) == (
        match frame {
            PitDiagFrame::Ack { enabled } => PitDiagEventView::Ack { enabled },
            PitDiagFrame::CellVoltage(c) => PitDiagEventView::CellVoltage {
                frame_idx: c.frame_idx,
                first_cell: c.first_cell,
                voltages_mv: c.voltages_mv,
            },
            PitDiagFrame::NtcTemp(t) => PitDiagEventView::NtcTemp {
                frame_idx: t.frame_idx,
                first_ntc: t.first_ntc,
                temps_c: t.temps_c,
            },
            PitDiagFrame::FsmStatus(f) => PitDiagEventView::FsmStatus {
                state: fsm_state_ui(f.state),
                mode_locked: mode_lock_ui(f.mode_locked),
                tsms: f.tsms,
                dash_chg: f.dash_chg,
                ams_ok: f.ams_ok,
                pec_error_total: f.pec_error_total,
                fault_reason: fault_reason_ui(f.fault_reason),
                fault_detail: f.fault_detail,
            },
            PitDiagFrame::PollTiming(p) => PitDiagEventView::PollTiming {
                last_v_poll_ms: p.last_v_poll_ms,
                worst_v_poll_ms: p.worst_v_poll_ms,
                t_sweep_fail_mask: p.t_sweep_fail_mask,
            },
            PitDiagFrame::BalanceMaskA(b) => PitDiagEventView::BalanceMaskA { dcc_lo: dec(b.dcc_lo as nat) },
            PitDiagFrame::BalanceMaskB(b) => PitDiagEventView::BalanceMaskB {
                dcc_hi: b.dcc_hi,
                cycles_total: b.cycles_total,
                cycles_active: b.cycles_active,
            },
            PitDiagFrame::BootDiag(b) => PitDiagEventView::BootDiag {
                jump_reason: jump_reason_ui(b.jump_reason),
                app_init_progress: b.app_init_progress,
                fdcan1_start_result: b.fdcan1_start_result,
            },
            PitDiagFrame::PostMortem(p) => PitDiagEventView::PostMortem {
                stack_overflow_seen: p.stack_overflow_seen,
                watermark_low_byte: p.watermark_low_byte,
                task_addr_lo: p.task_addr_lo,
                malloc_failed_count: p.malloc_failed_count,
                clean: !p.stack_overflow_seen && p.task_addr_lo == 0 && p.malloc_failed_count == 0,
            },
            PitDiagFrame::FwId(f) => PitDiagEventView::FwId {
                version_major: f.version_major,
                version_minor: f.version_minor,
                version_patch: f.version_patch,
                git_hash: f.git_hash,
                bl_node_id: f.bl_node_id,
            },
            PitDiagFrame::PerIcPec(p) => PitDiagEventView::PerIcPec {
                first_ic: p.first_ic,
                valid: p.valid,
                counts: p.counts,
            },
        }
        ),
{
}

/// Each ECU event carries the decoded frame field by field: numbers unchanged, enums by their front-end names, the last fault by its number and its name.
pub proof fn lemma_ecu_event_fields(frame: EcuPitDiagFrame)
    ensures
        ecu_event(frame) == (
        match frame {
            EcuPitDiagFrame::Ack { enabled } => PitDiagEventView::Ack { enabled },
            EcuPitDiagFrame::Status(s) => PitDiagEventView::EcuStatus {
                fsm_state: ecu_fsm_state_ui(s.fsm_state),
                inv_state: ecu_inv_state_ui(s.inv_state),
                ev_2_3: s.ev_2_3,
                t11_8_9: s.t11_8_9,
                rtds_active: s.rtds_active,
                ok_precharge: s.ok_precharge,
                start_button: s.start_button,
                dv_mode: s.dv_mode,
                torque_pct: s.torque_pct,
                v_cell_min_mv: s.v_cell_min_mv,
                torque_cmd: s.torque_cmd,
            },
            EcuPitDiagFrame::Pedals(p) => PitDiagEventView::EcuPedals {
                apps1_raw: p.apps1_raw,
                apps2_raw: p.apps2_raw,
                brake_raw: p.brake_raw,
                apps1_pct: p.apps1_pct,
                apps2_pct: p.apps2_pct,
            },
            EcuPitDiagFrame::Brake(b) => PitDiagEventView::EcuBrake {
                brake_pressure_dbar: b.brake_pressure_dbar,
                brake_pct: b.brake_pct,
            },
            EcuPitDiagFrame::Inverter(i) => PitDiagEventView::EcuInverter {
                dc_bus_voltage: i.dc_bus_voltage,
                inv_rpm: i.inv_rpm,
                inv_error: i.inv_error,
            },
            EcuPitDiagFrame::InverterTemps(t) => PitDiagEventView::EcuInverterTemps {
                board_degc: t.board_degc,
                pwrstg_degc: t.pwrstg_degc,
                motor1_degc: t.motor1_degc,
                motor2_degc: t.motor2_degc,
            },
            EcuPitDiagFrame::FwInfo(f) => PitDiagEventView::EcuFwInfo {
                version_major: f.fw_major,
                version_minor: f.fw_minor,
                version_patch: f.fw_patch,
                git_hash: f.git_hash,
            },
            EcuPitDiagFrame::Health(h) => PitDiagEventView::EcuHealth {
                free_heap: h.free_heap,
                min_free_heap: h.min_free_heap,
                task_control: h.task_control,
                task_can_rx: h.task_can_rx,
                task_can_tx: h.task_can_tx,
                task_diag: h.task_diag,
                reset_cause: ecu_reset_cause_ui(h.reset_cause),
                uptime_s: h.uptime_s,
                last_fault: h.last_fault,
                last_fault_name: ecu_last_fault_ui(h.last_fault),
            },
            EcuPitDiagFrame::Dv(d) => PitDiagEventView::EcuDv {
                dv_r2d_req: d.dv_r2d_req,
                dv_cmd_fresh: d.dv_cmd_fresh,
                ts_active: d.ts_active,
                brake_over_limit: d.brake_over_limit,
                r2d_confirm: d.r2d_confirm,
                dv_torque_pct: d.dv_torque_pct,
                motor_rpm_mech: d.motor_rpm_mech,
            },
        }
        ),
{
}

/// Each uDV event carries the decoded frame field by field: numbers unchanged, enums by their `{:?}` names, the calibration phase and error by number and name.
pub proof fn lemma_udv_event_fields(frame: UdvPitDiagFrame)
    ensures
        udv_event(frame) == (
        match frame {
            UdvPitDiagFrame::Status(s) => PitDiagEventView::UdvStatus {
                as_state: udv_as_state_debug(s.as_state),
                signals: s.signals,
                mission_id: s.mission_id,
                ebs_init: udv_ebs_init_debug(s.ebs_init),
                stub_mask: s.stub_mask,
                assi: udv_assi_debug(s.assi),
                diag_armed: s.diag_armed,
            },
            UdvPitDiagFrame::Res(r) => PitDiagEventView::UdvRes {
                raw191: r.raw_0x191,
                res_status: udv_res_status_debug(r.res_status),
                bits: r.bits,
                radio_quality: r.radio_quality,
                res_age_ms: r.res_age_ms,
                steer_motor: udv_steer_motor_debug(r.steer_motor),
                lws_status: r.lws_status,
            },
            UdvPitDiagFrame::Pipe(p) => PitDiagEventView::UdvPipe {
                dv_status: p.dv_status,
                dv_age_ms: p.dv_age_ms,
                accel_cmd_pct: p.accel_cmd_pct,
                steer_cmd: p.steer_cmd,
                ctrl_age_ms: p.ctrl_age_ms,
                setup_bits: p.setup_bits,
            },
            UdvPitDiagFrame::Health(h) => PitDiagEventView::UdvHealth {
                free_heap_words: h.free_heap_words,
                min_free_heap_words: h.min_free_heap_words,
                task_mask: h.task_mask,
                flags: h.flags,
                stalled_task: h.stalled_task,
                uptime_s: h.uptime_s,
            },
            UdvPitDiagFrame::FwInfo(f) => PitDiagEventView::UdvFwInfo {
                git_hash: f.git_hash,
                stub_mask: f.stub_mask,
                heap_size_kb: f.heap_size_kb,
                uptime_s: f.uptime_s,
            },
            UdvPitDiagFrame::CanHealth(c) => PitDiagEventView::UdvCanHealth {
                flags: c.flags,
                last_error_code: c.last_error_code,
                tx_err_count: c.tx_err_count,
                rx_err_count: c.rx_err_count,
                res_rx_count: c.res_rx_count,
                nmt_count: c.nmt_count,
                ack_error: c.ack_error,
            },
            UdvPitDiagFrame::Calib(c) => PitDiagEventView::UdvCalib {
                phase: c.phase,
                phase_name: calib_phase_text(c.phase),
                error: c.error,
                error_name: calib_error_text(c.error),
                center_ddeg: c.center_ddeg,
                half_range_ddeg: c.half_range_ddeg,
                limit_ddeg: c.limit_ddeg,
            },
        }
        ),
{
}

} // verus!
