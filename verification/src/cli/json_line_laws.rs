//! The NDJSON form of `cf pit-diag stream` is one JSON object per line:
//! every line the JSON renderers produce opens with `{`, closes with `}`
//! and holds no line break, whatever the decoded frame.
use vstd::prelude::*;
use crate::cli::pit_diag_lines::{
    valid_count, ams_ack_json_text, ams_bal_a_json_text, ams_bal_b_json_text, ams_boot_json_text, ams_cell_json_text, ams_crash_json_text, ams_fsm_json_text, ams_fw_json_text, ams_ntc_json_text, ams_pec_json_text, ams_poll_json_text, ecu_brake_json_text, ecu_dv_json_text, ecu_fw_json_text, ecu_health_json_text, ecu_inverter_json_text, ecu_json_text, ecu_pedals_json_text, ecu_status_json_text, ecu_temps_json_text, record_json_text, udv_calib_json_text, udv_can_json_text, udv_fw_json_text, udv_health_json_text, udv_json_text, udv_pipe_json_text, udv_res_json_text, udv_status_json_text,
};
use crate::pit_diag::ecu::{
    EcuBrakeFrame, EcuDvFrame, EcuFsmState, EcuFwInfoFrame, EcuHealthFrame, EcuInvState,
    EcuInverterFrame, EcuInverterTempsFrame, EcuPedalsFrame, EcuPitDiagFrame, EcuResetCause,
    EcuStatusFrame,
};
use crate::pit_diag::names::{
    ecu_fsm_state_debug, ecu_inv_state_debug, ecu_reset_cause_debug, fault_reason_debug,
    fsm_state_debug, jump_reason_debug, mode_lock_debug, udv_as_state_debug, udv_assi_debug,
    udv_ebs_init_debug, udv_res_status_debug, udv_steer_motor_debug,
};
use crate::pit_diag::udv::{
    UdvAsState, UdvAssi, UdvCalibFrame, UdvCanHealthFrame, UdvEbsInit, UdvFwInfoFrame,
    UdvHealthFrame, UdvPipeFrame, UdvPitDiagFrame, UdvResFrame, UdvResStatus, UdvStatusFrame,
    UdvSteerMotor,
};
use crate::pit_diag::{
    BalanceMaskAFrame, BalanceMaskBFrame, BootDiagFrame, CellVoltageFrame, FaultReason,
    FsmState, FsmStatusFrame, FwIdFrame, JumpReason, ModeLock, NtcTempFrame, PerIcPecFrame,
    PitDiagFrame, PollTimingFrame, PostMortemFrame,
};
use crate::text::{bool_text, dec, dec_int, digits, hex_char, join_dec, pad_left};

verus! {

/// No character of `s` ends a line.
pub open spec fn no_line_break(s: Seq<char>) -> bool {
    forall|i: int| 0 <= i < s.len() ==> #[trigger] s[i] != '\n' && s[i] != '\r'
}

/// `s` is one JSON object written on one line.
pub open spec fn json_object_line(s: Seq<char>) -> bool {
    &&& s.len() >= 2
    &&& s[0] == '{'
    &&& s[s.len() - 1] == '}'
    &&& no_line_break(s)
}

// ---- Pieces ----

/// Joining two texts free of line breaks gives one; the first character
/// comes from the left part, the last from the right part.
proof fn lemma_join_line(a: Seq<char>, b: Seq<char>)
    requires
        no_line_break(a),
        no_line_break(b),
    ensures
        no_line_break(a + b),
        (a + b).len() == a.len() + b.len(),
        a.len() > 0 ==> (a + b)[0] == a[0],
        b.len() > 0 ==> (a + b)[a.len() + b.len() - 1] == b[b.len() - 1],
{
    let s = a + b;
    assert forall|i: int| 0 <= i < s.len() implies #[trigger] s[i] != '\n' && s[i] != '\r' by {
        if i < a.len() {
            assert(s[i] == a[i]);
        } else {
            assert(s[i] == b[i - a.len()]);
        }
    }
}

proof fn lemma_digits_no_break(n: nat, radix: nat)
    requires
        2 <= radix <= 16,
    ensures
        no_line_break(digits(n, radix, true)),
    decreases n,
{
    if n >= radix {
        crate::text::lemma_div_lt(n, radix);
        lemma_digits_no_break(n / radix, radix);
        let r = n % radix;
        assert(r < radix) by (nonlinear_arith)
            requires
                radix >= 2,
                r == n % radix,
        ;
        let s = digits(n, radix, true);
        assert forall|i: int| 0 <= i < s.len() implies #[trigger] s[i] != '\n' && s[i] != '\r' by {
            if i < s.len() - 1 {
                assert(s[i] == digits(n / radix, radix, true)[i]);
            } else {
                assert(s[i] == hex_char(r, true));
            }
        }
    } else {
        assert(digits(n, radix, true)[0] == hex_char(n, true));
    }
}

proof fn lemma_dec_no_break(n: nat)
    ensures
        no_line_break(dec(n)),
{
    lemma_digits_no_break(n, 10);
}

proof fn lemma_dec_int_no_break(v: int)
    ensures
        no_line_break(dec_int(v)),
{
    if v < 0 {
        lemma_dec_no_break((-v) as nat);
        let s = dec_int(v);
        assert forall|i: int| 0 <= i < s.len() implies #[trigger] s[i] != '\n' && s[i] != '\r' by {
            if i > 0 {
                assert(s[i] == dec((-v) as nat)[i - 1]);
            }
        }
    } else {
        lemma_dec_no_break(v as nat);
    }
}

proof fn lemma_bool_no_break(b: bool)
    ensures
        no_line_break(bool_text(b)),
{
}

proof fn lemma_join_dec_no_break(v: Seq<u8>, width: nat, sep: Seq<char>)
    requires
        no_line_break(sep),
    ensures
        no_line_break(join_dec(v, width, sep)),
    decreases v.len(),
{
    if v.len() == 1 {
        lemma_dec_no_break(v[0] as nat);
        lemma_pad_no_break(dec(v[0] as nat), width);
    } else if v.len() > 1 {
        lemma_join_dec_no_break(v.drop_last(), width, sep);
        lemma_dec_no_break(v.last() as nat);
        lemma_pad_no_break(dec(v.last() as nat), width);
        let a = join_dec(v.drop_last(), width, sep);
        let b = pad_left(dec(v.last() as nat), width, ' ');
        let s = join_dec(v, width, sep);
        assert(s == a + sep + b);
    }
}

proof fn lemma_pad_no_break(s: Seq<char>, width: nat)
    requires
        no_line_break(s),
    ensures
        no_line_break(pad_left(s, width, ' ')),
{
    let p = pad_left(s, width, ' ');
    assert forall|i: int| 0 <= i < p.len() implies #[trigger] p[i] != '\n' && p[i] != '\r' by {
        if s.len() < width && i < width - s.len() {
            assert(p[i] == ' ');
        } else if s.len() < width {
            assert(p[i] == s[i - (width - s.len())]);
        }
    }
}

// ---- Enum names ----

proof fn lemma_fsm_state_debug_no_break(v: FsmState)
    ensures
        no_line_break(fsm_state_debug(v)),
{
    match v {
        FsmState::Start => {
            reveal_strlit("Start");
        },
        FsmState::Precharge => {
            reveal_strlit("Precharge");
        },
        FsmState::Transition => {
            reveal_strlit("Transition");
        },
        FsmState::Run => {
            reveal_strlit("Run");
        },
        FsmState::Charge => {
            reveal_strlit("Charge");
        },
        FsmState::Error => {
            reveal_strlit("Error");
        },
        FsmState::Unknown(b) => {
            reveal_strlit("Unknown(");
            reveal_strlit(")");
            lemma_dec_no_break(b as nat);
        },
    }
}

proof fn lemma_mode_lock_debug_no_break(v: ModeLock)
    ensures
        no_line_break(mode_lock_debug(v)),
{
    match v {
        ModeLock::Undecided => {
            reveal_strlit("Undecided");
        },
        ModeLock::Car => {
            reveal_strlit("Car");
        },
        ModeLock::Charger => {
            reveal_strlit("Charger");
        },
        ModeLock::Unknown(b) => {
            reveal_strlit("Unknown(");
            reveal_strlit(")");
            lemma_dec_no_break(b as nat);
        },
    }
}

proof fn lemma_fault_reason_debug_no_break(v: FaultReason)
    ensures
        no_line_break(fault_reason_debug(v)),
{
    match v {
        FaultReason::NoFault => {
            reveal_strlit("None");
        },
        FaultReason::ForceError => {
            reveal_strlit("ForceError");
        },
        FaultReason::BmsModuleOffline => {
            reveal_strlit("BmsModuleOffline");
        },
        FaultReason::BmsStale => {
            reveal_strlit("BmsStale");
        },
        FaultReason::CellUnderVoltage => {
            reveal_strlit("CellUnderVoltage");
        },
        FaultReason::CellOverVoltage => {
            reveal_strlit("CellOverVoltage");
        },
        FaultReason::CellUnderTemp => {
            reveal_strlit("CellUnderTemp");
        },
        FaultReason::CellOverTemp => {
            reveal_strlit("CellOverTemp");
        },
        FaultReason::CurrentSensorFault => {
            reveal_strlit("CurrentSensorFault");
        },
        FaultReason::CurrentStale => {
            reveal_strlit("CurrentStale");
        },
        FaultReason::CurrentOverLimit => {
            reveal_strlit("CurrentOverLimit");
        },
        FaultReason::VcuStale => {
            reveal_strlit("VcuStale");
        },
        FaultReason::FsmError => {
            reveal_strlit("FsmError");
        },
        FaultReason::Unknown(b) => {
            reveal_strlit("Unknown(");
            reveal_strlit(")");
            lemma_dec_no_break(b as nat);
        },
    }
}

proof fn lemma_jump_reason_debug_no_break(v: JumpReason)
    ensures
        no_line_break(jump_reason_debug(v)),
{
    match v {
        JumpReason::PowerOn => {
            reveal_strlit("PowerOn");
        },
        JumpReason::CanTrigger => {
            reveal_strlit("CanTrigger");
        },
        JumpReason::Manual => {
            reveal_strlit("Manual");
        },
        JumpReason::Unknown(b) => {
            reveal_strlit("Unknown(");
            reveal_strlit(")");
            lemma_dec_no_break(b as nat);
        },
    }
}

proof fn lemma_ecu_fsm_state_debug_no_break(v: EcuFsmState)
    ensures
        no_line_break(ecu_fsm_state_debug(v)),
{
    match v {
        EcuFsmState::WaitInvVdcConfig => {
            reveal_strlit("WaitInvVdcConfig");
        },
        EcuFsmState::Precharge => {
            reveal_strlit("Precharge");
        },
        EcuFsmState::WaitStartBrake => {
            reveal_strlit("WaitStartBrake");
        },
        EcuFsmState::R2dDelay => {
            reveal_strlit("R2dDelay");
        },
        EcuFsmState::WaitInvStandby => {
            reveal_strlit("WaitInvStandby");
        },
        EcuFsmState::Active => {
            reveal_strlit("Active");
        },
        EcuFsmState::AmsError => {
            reveal_strlit("AmsError");
        },
        EcuFsmState::Unknown(b) => {
            reveal_strlit("Unknown(");
            reveal_strlit(")");
            lemma_dec_no_break(b as nat);
        },
    }
}

proof fn lemma_ecu_inv_state_debug_no_break(v: EcuInvState)
    ensures
        no_line_break(ecu_inv_state_debug(v)),
{
    match v {
        EcuInvState::Standby => {
            reveal_strlit("Standby");
        },
        EcuInvState::Ready => {
            reveal_strlit("Ready");
        },
        EcuInvState::Unknown(b) => {
            reveal_strlit("Unknown(");
            reveal_strlit(")");
            lemma_dec_no_break(b as nat);
        },
    }
}

proof fn lemma_ecu_reset_cause_debug_no_break(v: EcuResetCause)
    ensures
        no_line_break(ecu_reset_cause_debug(v)),
{
    match v {
        EcuResetCause::Unknown => {
            reveal_strlit("Unknown");
        },
        EcuResetCause::PowerOn => {
            reveal_strlit("PowerOn");
        },
        EcuResetCause::Pin => {
            reveal_strlit("Pin");
        },
        EcuResetCause::Software => {
            reveal_strlit("Software");
        },
        EcuResetCause::Iwdg => {
            reveal_strlit("Iwdg");
        },
        EcuResetCause::Wwdg => {
            reveal_strlit("Wwdg");
        },
        EcuResetCause::LowPower => {
            reveal_strlit("LowPower");
        },
        EcuResetCause::Other(b) => {
            reveal_strlit("Other(");
            reveal_strlit(")");
            lemma_dec_no_break(b as nat);
        },
    }
}

proof fn lemma_udv_as_state_debug_no_break(v: UdvAsState)
    ensures
        no_line_break(udv_as_state_debug(v)),
{
    match v {
        UdvAsState::Off => {
            reveal_strlit("Off");
        },
        UdvAsState::Ready => {
            reveal_strlit("Ready");
        },
        UdvAsState::Driving => {
            reveal_strlit("Driving");
        },
        UdvAsState::Emergency => {
            reveal_strlit("Emergency");
        },
        UdvAsState::Finished => {
            reveal_strlit("Finished");
        },
        UdvAsState::Other(b) => {
            reveal_strlit("Other(");
            reveal_strlit(")");
            lemma_dec_no_break(b as nat);
        },
    }
}

proof fn lemma_udv_ebs_init_debug_no_break(v: UdvEbsInit)
    ensures
        no_line_break(udv_ebs_init_debug(v)),
{
    match v {
        UdvEbsInit::Start => {
            reveal_strlit("Start");
        },
        UdvEbsInit::WaitLow => {
            reveal_strlit("WaitLow");
        },
        UdvEbsInit::CheckPressure => {
            reveal_strlit("CheckPressure");
        },
        UdvEbsInit::WaitTs => {
            reveal_strlit("WaitTs");
        },
        UdvEbsInit::CheckAct1 => {
            reveal_strlit("CheckAct1");
        },
        UdvEbsInit::WaitInter => {
            reveal_strlit("WaitInter");
        },
        UdvEbsInit::CheckAct2 => {
            reveal_strlit("CheckAct2");
        },
        UdvEbsInit::Failed => {
            reveal_strlit("Failed");
        },
        UdvEbsInit::Done => {
            reveal_strlit("Done");
        },
        UdvEbsInit::Other(b) => {
            reveal_strlit("Other(");
            reveal_strlit(")");
            lemma_dec_no_break(b as nat);
        },
    }
}

proof fn lemma_udv_assi_debug_no_break(v: UdvAssi)
    ensures
        no_line_break(udv_assi_debug(v)),
{
    match v {
        UdvAssi::Off => {
            reveal_strlit("Off");
        },
        UdvAssi::Ready => {
            reveal_strlit("Ready");
        },
        UdvAssi::Driving => {
            reveal_strlit("Driving");
        },
        UdvAssi::Emergency => {
            reveal_strlit("Emergency");
        },
        UdvAssi::Finished => {
            reveal_strlit("Finished");
        },
        UdvAssi::Other(b) => {
            reveal_strlit("Other(");
            reveal_strlit(")");
            lemma_dec_no_break(b as nat);
        },
    }
}

proof fn lemma_udv_res_status_debug_no_break(v: UdvResStatus)
    ensures
        no_line_break(udv_res_status_debug(v)),
{
    match v {
        UdvResStatus::NoStatus => {
            reveal_strlit("None");
        },
        UdvResStatus::Timeout => {
            reveal_strlit("Timeout");
        },
        UdvResStatus::Okay => {
            reveal_strlit("Ok");
        },
        UdvResStatus::Estop => {
            reveal_strlit("Estop");
        },
        UdvResStatus::Go => {
            reveal_strlit("Go");
        },
        UdvResStatus::Other(b) => {
            reveal_strlit("Other(");
            reveal_strlit(")");
            lemma_dec_int_no_break(b as int);
        },
    }
}

proof fn lemma_udv_steer_motor_debug_no_break(v: UdvSteerMotor)
    ensures
        no_line_break(udv_steer_motor_debug(v)),
{
    match v {
        UdvSteerMotor::Emergency => {
            reveal_strlit("Emergency");
        },
        UdvSteerMotor::Off => {
            reveal_strlit("Off");
        },
        UdvSteerMotor::On => {
            reveal_strlit("On");
        },
        UdvSteerMotor::Other(b) => {
            reveal_strlit("Other(");
            reveal_strlit(")");
            lemma_dec_int_no_break(b as int);
        },
    }
}

// ---- One renderer each ----

proof fn lemma_ams_ack_json_line(ts: u64, enabled: bool)
    ensures
        json_object_line(ams_ack_json_text(ts, enabled)),
{
    reveal_strlit("{\"tsMs\":");
    reveal_strlit(",\"kind\":\"ack\",\"enabled\":");
    reveal_strlit("}");
    lemma_dec_no_break(ts as nat);
    lemma_bool_no_break(enabled);
    let s1 = "{\"tsMs\":"@ + dec(ts as nat);
    lemma_join_line("{\"tsMs\":"@, dec(ts as nat));
    let s2 = s1 + ",\"kind\":\"ack\",\"enabled\":"@;
    lemma_join_line(s1, ",\"kind\":\"ack\",\"enabled\":"@);
    let s3 = s2 + bool_text(enabled);
    lemma_join_line(s2, bool_text(enabled));
    let s4 = s3 + "}"@;
    lemma_join_line(s3, "}"@);
    assert(s4 == ams_ack_json_text(ts, enabled));
}

proof fn lemma_ams_cell_json_line(ts: u64, c: CellVoltageFrame)
    ensures
        json_object_line(ams_cell_json_text(ts, c)),
{
    reveal_strlit("{\"tsMs\":");
    reveal_strlit(",\"kind\":\"cellVoltage\",\"frameIdx\":");
    reveal_strlit(",\"firstCell\":");
    reveal_strlit(",\"voltagesMv\":[");
    reveal_strlit(",");
    reveal_strlit("]}");
    lemma_dec_no_break(ts as nat);
    lemma_dec_no_break(c.frame_idx as nat);
    lemma_dec_no_break(c.first_cell as nat);
    lemma_dec_no_break(c.voltages_mv@[0] as nat);
    lemma_dec_no_break(c.voltages_mv@[1] as nat);
    lemma_dec_no_break(c.voltages_mv@[2] as nat);
    lemma_dec_no_break(c.voltages_mv@[3] as nat);
    let s1 = "{\"tsMs\":"@ + dec(ts as nat);
    lemma_join_line("{\"tsMs\":"@, dec(ts as nat));
    let s2 = s1 + ",\"kind\":\"cellVoltage\",\"frameIdx\":"@;
    lemma_join_line(s1, ",\"kind\":\"cellVoltage\",\"frameIdx\":"@);
    let s3 = s2 + dec(c.frame_idx as nat);
    lemma_join_line(s2, dec(c.frame_idx as nat));
    let s4 = s3 + ",\"firstCell\":"@;
    lemma_join_line(s3, ",\"firstCell\":"@);
    let s5 = s4 + dec(c.first_cell as nat);
    lemma_join_line(s4, dec(c.first_cell as nat));
    let s6 = s5 + ",\"voltagesMv\":["@;
    lemma_join_line(s5, ",\"voltagesMv\":["@);
    let s7 = s6 + dec(c.voltages_mv@[0] as nat);
    lemma_join_line(s6, dec(c.voltages_mv@[0] as nat));
    let s8 = s7 + ","@;
    lemma_join_line(s7, ","@);
    let s9 = s8 + dec(c.voltages_mv@[1] as nat);
    lemma_join_line(s8, dec(c.voltages_mv@[1] as nat));
    let s10 = s9 + ","@;
    lemma_join_line(s9, ","@);
    let s11 = s10 + dec(c.voltages_mv@[2] as nat);
    lemma_join_line(s10, dec(c.voltages_mv@[2] as nat));
    let s12 = s11 + ","@;
    lemma_join_line(s11, ","@);
    let s13 = s12 + dec(c.voltages_mv@[3] as nat);
    lemma_join_line(s12, dec(c.voltages_mv@[3] as nat));
    let s14 = s13 + "]}"@;
    lemma_join_line(s13, "]}"@);
    assert(s14 == ams_cell_json_text(ts, c));
}

proof fn lemma_ams_ntc_json_line(ts: u64, t: NtcTempFrame)
    ensures
        json_object_line(ams_ntc_json_text(ts, t)),
{
    reveal_strlit("{\"tsMs\":");
    reveal_strlit(",\"kind\":\"ntcTemp\",\"frameIdx\":");
    reveal_strlit(",\"firstNtc\":");
    reveal_strlit(",\"tempsC\":[");
    reveal_strlit(",");
    reveal_strlit("]}");
    lemma_dec_no_break(ts as nat);
    lemma_dec_no_break(t.frame_idx as nat);
    lemma_dec_no_break(t.first_ntc as nat);
    lemma_dec_int_no_break(t.temps_c@[0] as int);
    lemma_dec_int_no_break(t.temps_c@[1] as int);
    lemma_dec_int_no_break(t.temps_c@[2] as int);
    lemma_dec_int_no_break(t.temps_c@[3] as int);
    lemma_dec_int_no_break(t.temps_c@[4] as int);
    lemma_dec_int_no_break(t.temps_c@[5] as int);
    lemma_dec_int_no_break(t.temps_c@[6] as int);
    lemma_dec_int_no_break(t.temps_c@[7] as int);
    let s1 = "{\"tsMs\":"@ + dec(ts as nat);
    lemma_join_line("{\"tsMs\":"@, dec(ts as nat));
    let s2 = s1 + ",\"kind\":\"ntcTemp\",\"frameIdx\":"@;
    lemma_join_line(s1, ",\"kind\":\"ntcTemp\",\"frameIdx\":"@);
    let s3 = s2 + dec(t.frame_idx as nat);
    lemma_join_line(s2, dec(t.frame_idx as nat));
    let s4 = s3 + ",\"firstNtc\":"@;
    lemma_join_line(s3, ",\"firstNtc\":"@);
    let s5 = s4 + dec(t.first_ntc as nat);
    lemma_join_line(s4, dec(t.first_ntc as nat));
    let s6 = s5 + ",\"tempsC\":["@;
    lemma_join_line(s5, ",\"tempsC\":["@);
    let s7 = s6 + dec_int(t.temps_c@[0] as int);
    lemma_join_line(s6, dec_int(t.temps_c@[0] as int));
    let s8 = s7 + ","@;
    lemma_join_line(s7, ","@);
    let s9 = s8 + dec_int(t.temps_c@[1] as int);
    lemma_join_line(s8, dec_int(t.temps_c@[1] as int));
    let s10 = s9 + ","@;
    lemma_join_line(s9, ","@);
    let s11 = s10 + dec_int(t.temps_c@[2] as int);
    lemma_join_line(s10, dec_int(t.temps_c@[2] as int));
    let s12 = s11 + ","@;
    lemma_join_line(s11, ","@);
    let s13 = s12 + dec_int(t.temps_c@[3] as int);
    lemma_join_line(s12, dec_int(t.temps_c@[3] as int));
    let s14 = s13 + ","@;
    lemma_join_line(s13, ","@);
    let s15 = s14 + dec_int(t.temps_c@[4] as int);
    lemma_join_line(s14, dec_int(t.temps_c@[4] as int));
    let s16 = s15 + ","@;
    lemma_join_line(s15, ","@);
    let s17 = s16 + dec_int(t.temps_c@[5] as int);
    lemma_join_line(s16, dec_int(t.temps_c@[5] as int));
    let s18 = s17 + ","@;
    lemma_join_line(s17, ","@);
    let s19 = s18 + dec_int(t.temps_c@[6] as int);
    lemma_join_line(s18, dec_int(t.temps_c@[6] as int));
    let s20 = s19 + ","@;
    lemma_join_line(s19, ","@);
    let s21 = s20 + dec_int(t.temps_c@[7] as int);
    lemma_join_line(s20, dec_int(t.temps_c@[7] as int));
    let s22 = s21 + "]}"@;
    lemma_join_line(s21, "]}"@);
    assert(s22 == ams_ntc_json_text(ts, t));
}

proof fn lemma_ams_fsm_json_line(ts: u64, f: FsmStatusFrame)
    ensures
        json_object_line(ams_fsm_json_text(ts, f)),
{
    reveal_strlit("{\"tsMs\":");
    reveal_strlit(",\"kind\":\"fsmStatus\",\"state\":\"");
    reveal_strlit("\",\"modeLocked\":\"");
    reveal_strlit("\",\"tsms\":");
    reveal_strlit(",\"dashChg\":");
    reveal_strlit(",\"amsOk\":");
    reveal_strlit(",\"pecErrorTotal\":");
    reveal_strlit(",\"faultReason\":\"");
    reveal_strlit("\",\"faultDetail\":");
    reveal_strlit("}");
    lemma_dec_no_break(ts as nat);
    lemma_fsm_state_debug_no_break(f.state);
    lemma_mode_lock_debug_no_break(f.mode_locked);
    lemma_bool_no_break(f.tsms);
    lemma_bool_no_break(f.dash_chg);
    lemma_bool_no_break(f.ams_ok);
    lemma_dec_no_break(f.pec_error_total as nat);
    lemma_fault_reason_debug_no_break(f.fault_reason);
    lemma_dec_no_break(f.fault_detail as nat);
    let s1 = "{\"tsMs\":"@ + dec(ts as nat);
    lemma_join_line("{\"tsMs\":"@, dec(ts as nat));
    let s2 = s1 + ",\"kind\":\"fsmStatus\",\"state\":\""@;
    lemma_join_line(s1, ",\"kind\":\"fsmStatus\",\"state\":\""@);
    let s3 = s2 + fsm_state_debug(f.state);
    lemma_join_line(s2, fsm_state_debug(f.state));
    let s4 = s3 + "\",\"modeLocked\":\""@;
    lemma_join_line(s3, "\",\"modeLocked\":\""@);
    let s5 = s4 + mode_lock_debug(f.mode_locked);
    lemma_join_line(s4, mode_lock_debug(f.mode_locked));
    let s6 = s5 + "\",\"tsms\":"@;
    lemma_join_line(s5, "\",\"tsms\":"@);
    let s7 = s6 + bool_text(f.tsms);
    lemma_join_line(s6, bool_text(f.tsms));
    let s8 = s7 + ",\"dashChg\":"@;
    lemma_join_line(s7, ",\"dashChg\":"@);
    let s9 = s8 + bool_text(f.dash_chg);
    lemma_join_line(s8, bool_text(f.dash_chg));
    let s10 = s9 + ",\"amsOk\":"@;
    lemma_join_line(s9, ",\"amsOk\":"@);
    let s11 = s10 + bool_text(f.ams_ok);
    lemma_join_line(s10, bool_text(f.ams_ok));
    let s12 = s11 + ",\"pecErrorTotal\":"@;
    lemma_join_line(s11, ",\"pecErrorTotal\":"@);
    let s13 = s12 + dec(f.pec_error_total as nat);
    lemma_join_line(s12, dec(f.pec_error_total as nat));
    let s14 = s13 + ",\"faultReason\":\""@;
    lemma_join_line(s13, ",\"faultReason\":\""@);
    let s15 = s14 + fault_reason_debug(f.fault_reason);
    lemma_join_line(s14, fault_reason_debug(f.fault_reason));
    let s16 = s15 + "\",\"faultDetail\":"@;
    lemma_join_line(s15, "\",\"faultDetail\":"@);
    let s17 = s16 + dec(f.fault_detail as nat);
    lemma_join_line(s16, dec(f.fault_detail as nat));
    let s18 = s17 + "}"@;
    lemma_join_line(s17, "}"@);
    assert(s18 == ams_fsm_json_text(ts, f));
}

proof fn lemma_ams_poll_json_line(ts: u64, p: PollTimingFrame)
    ensures
        json_object_line(ams_poll_json_text(ts, p)),
{
    reveal_strlit("{\"tsMs\":");
    reveal_strlit(",\"kind\":\"pollTiming\",\"lastVPollMs\":");
    reveal_strlit(",\"worstVPollMs\":");
    reveal_strlit(",\"tSweepFailMask\":");
    reveal_strlit("}");
    lemma_dec_no_break(ts as nat);
    lemma_dec_no_break(p.last_v_poll_ms as nat);
    lemma_dec_no_break(p.worst_v_poll_ms as nat);
    lemma_dec_no_break(p.t_sweep_fail_mask as nat);
    let s1 = "{\"tsMs\":"@ + dec(ts as nat);
    lemma_join_line("{\"tsMs\":"@, dec(ts as nat));
    let s2 = s1 + ",\"kind\":\"pollTiming\",\"lastVPollMs\":"@;
    lemma_join_line(s1, ",\"kind\":\"pollTiming\",\"lastVPollMs\":"@);
    let s3 = s2 + dec(p.last_v_poll_ms as nat);
    lemma_join_line(s2, dec(p.last_v_poll_ms as nat));
    let s4 = s3 + ",\"worstVPollMs\":"@;
    lemma_join_line(s3, ",\"worstVPollMs\":"@);
    let s5 = s4 + dec(p.worst_v_poll_ms as nat);
    lemma_join_line(s4, dec(p.worst_v_poll_ms as nat));
    let s6 = s5 + ",\"tSweepFailMask\":"@;
    lemma_join_line(s5, ",\"tSweepFailMask\":"@);
    let s7 = s6 + dec(p.t_sweep_fail_mask as nat);
    lemma_join_line(s6, dec(p.t_sweep_fail_mask as nat));
    let s8 = s7 + "}"@;
    lemma_join_line(s7, "}"@);
    assert(s8 == ams_poll_json_text(ts, p));
}

proof fn lemma_ams_bal_a_json_line(ts: u64, b: BalanceMaskAFrame)
    ensures
        json_object_line(ams_bal_a_json_text(ts, b)),
{
    reveal_strlit("{\"tsMs\":");
    reveal_strlit(",\"kind\":\"balanceMaskA\",\"dccLo\":");
    reveal_strlit("}");
    lemma_dec_no_break(ts as nat);
    lemma_dec_no_break(b.dcc_lo as nat);
    let s1 = "{\"tsMs\":"@ + dec(ts as nat);
    lemma_join_line("{\"tsMs\":"@, dec(ts as nat));
    let s2 = s1 + ",\"kind\":\"balanceMaskA\",\"dccLo\":"@;
    lemma_join_line(s1, ",\"kind\":\"balanceMaskA\",\"dccLo\":"@);
    let s3 = s2 + dec(b.dcc_lo as nat);
    lemma_join_line(s2, dec(b.dcc_lo as nat));
    let s4 = s3 + "}"@;
    lemma_join_line(s3, "}"@);
    assert(s4 == ams_bal_a_json_text(ts, b));
}

proof fn lemma_ams_bal_b_json_line(ts: u64, b: BalanceMaskBFrame)
    ensures
        json_object_line(ams_bal_b_json_text(ts, b)),
{
    reveal_strlit("{\"tsMs\":");
    reveal_strlit(",\"kind\":\"balanceMaskB\",\"dccHi\":");
    reveal_strlit(",\"cyclesTotal\":");
    reveal_strlit(",\"cyclesActive\":");
    reveal_strlit("}");
    lemma_dec_no_break(ts as nat);
    lemma_dec_no_break(b.dcc_hi as nat);
    lemma_dec_no_break(b.cycles_total as nat);
    lemma_dec_no_break(b.cycles_active as nat);
    let s1 = "{\"tsMs\":"@ + dec(ts as nat);
    lemma_join_line("{\"tsMs\":"@, dec(ts as nat));
    let s2 = s1 + ",\"kind\":\"balanceMaskB\",\"dccHi\":"@;
    lemma_join_line(s1, ",\"kind\":\"balanceMaskB\",\"dccHi\":"@);
    let s3 = s2 + dec(b.dcc_hi as nat);
    lemma_join_line(s2, dec(b.dcc_hi as nat));
    let s4 = s3 + ",\"cyclesTotal\":"@;
    lemma_join_line(s3, ",\"cyclesTotal\":"@);
    let s5 = s4 + dec(b.cycles_total as nat);
    lemma_join_line(s4, dec(b.cycles_total as nat));
    let s6 = s5 + ",\"cyclesActive\":"@;
    lemma_join_line(s5, ",\"cyclesActive\":"@);
    let s7 = s6 + dec(b.cycles_active as nat);
    lemma_join_line(s6, dec(b.cycles_active as nat));
    let s8 = s7 + "}"@;
    lemma_join_line(s7, "}"@);
    assert(s8 == ams_bal_b_json_text(ts, b));
}

proof fn lemma_ams_boot_json_line(ts: u64, b: BootDiagFrame)
    ensures
        json_object_line(ams_boot_json_text(ts, b)),
{
    reveal_strlit("{\"tsMs\":");
    reveal_strlit(",\"kind\":\"bootDiag\",\"jumpReason\":\"");
    reveal_strlit("\",\"appInitProgress\":");
    reveal_strlit(",\"fdcan1StartResult\":");
    reveal_strlit("}");
    lemma_dec_no_break(ts as nat);
    lemma_jump_reason_debug_no_break(b.jump_reason);
    lemma_dec_no_break(b.app_init_progress as nat);
    lemma_dec_no_break(b.fdcan1_start_result as nat);
    let s1 = "{\"tsMs\":"@ + dec(ts as nat);
    lemma_join_line("{\"tsMs\":"@, dec(ts as nat));
    let s2 = s1 + ",\"kind\":\"bootDiag\",\"jumpReason\":\""@;
    lemma_join_line(s1, ",\"kind\":\"bootDiag\",\"jumpReason\":\""@);
    let s3 = s2 + jump_reason_debug(b.jump_reason);
    lemma_join_line(s2, jump_reason_debug(b.jump_reason));
    let s4 = s3 + "\",\"appInitProgress\":"@;
    lemma_join_line(s3, "\",\"appInitProgress\":"@);
    let s5 = s4 + dec(b.app_init_progress as nat);
    lemma_join_line(s4, dec(b.app_init_progress as nat));
    let s6 = s5 + ",\"fdcan1StartResult\":"@;
    lemma_join_line(s5, ",\"fdcan1StartResult\":"@);
    let s7 = s6 + dec(b.fdcan1_start_result as nat);
    lemma_join_line(s6, dec(b.fdcan1_start_result as nat));
    let s8 = s7 + "}"@;
    lemma_join_line(s7, "}"@);
    assert(s8 == ams_boot_json_text(ts, b));
}

proof fn lemma_ams_crash_json_line(ts: u64, p: PostMortemFrame)
    ensures
        json_object_line(ams_crash_json_text(ts, p)),
{
    reveal_strlit("{\"tsMs\":");
    reveal_strlit(",\"kind\":\"postMortem\",\"stackOverflowSeen\":");
    reveal_strlit(",\"watermarkLowByte\":");
    reveal_strlit(",\"taskAddrLo\":");
    reveal_strlit(",\"mallocFailedCount\":");
    reveal_strlit("}");
    lemma_dec_no_break(ts as nat);
    lemma_bool_no_break(p.stack_overflow_seen);
    lemma_dec_no_break(p.watermark_low_byte as nat);
    lemma_dec_no_break(p.task_addr_lo as nat);
    lemma_dec_no_break(p.malloc_failed_count as nat);
    let s1 = "{\"tsMs\":"@ + dec(ts as nat);
    lemma_join_line("{\"tsMs\":"@, dec(ts as nat));
    let s2 = s1 + ",\"kind\":\"postMortem\",\"stackOverflowSeen\":"@;
    lemma_join_line(s1, ",\"kind\":\"postMortem\",\"stackOverflowSeen\":"@);
    let s3 = s2 + bool_text(p.stack_overflow_seen);
    lemma_join_line(s2, bool_text(p.stack_overflow_seen));
    let s4 = s3 + ",\"watermarkLowByte\":"@;
    lemma_join_line(s3, ",\"watermarkLowByte\":"@);
    let s5 = s4 + dec(p.watermark_low_byte as nat);
    lemma_join_line(s4, dec(p.watermark_low_byte as nat));
    let s6 = s5 + ",\"taskAddrLo\":"@;
    lemma_join_line(s5, ",\"taskAddrLo\":"@);
    let s7 = s6 + dec(p.task_addr_lo as nat);
    lemma_join_line(s6, dec(p.task_addr_lo as nat));
    let s8 = s7 + ",\"mallocFailedCount\":"@;
    lemma_join_line(s7, ",\"mallocFailedCount\":"@);
    let s9 = s8 + dec(p.malloc_failed_count as nat);
    lemma_join_line(s8, dec(p.malloc_failed_count as nat));
    let s10 = s9 + "}"@;
    lemma_join_line(s9, "}"@);
    assert(s10 == ams_crash_json_text(ts, p));
}

proof fn lemma_ams_fw_json_line(ts: u64, f: FwIdFrame)
    ensures
        json_object_line(ams_fw_json_text(ts, f)),
{
    reveal_strlit("{\"tsMs\":");
    reveal_strlit(",\"kind\":\"fwId\",\"versionMajor\":");
    reveal_strlit(",\"versionMinor\":");
    reveal_strlit(",\"versionPatch\":");
    reveal_strlit(",\"gitHash\":[");
    reveal_strlit(",");
    reveal_strlit("],\"blNodeId\":");
    reveal_strlit("}");
    lemma_dec_no_break(ts as nat);
    lemma_dec_no_break(f.version_major as nat);
    lemma_dec_no_break(f.version_minor as nat);
    lemma_dec_no_break(f.version_patch as nat);
    lemma_dec_no_break(f.git_hash@[0] as nat);
    lemma_dec_no_break(f.git_hash@[1] as nat);
    lemma_dec_no_break(f.git_hash@[2] as nat);
    lemma_dec_no_break(f.git_hash@[3] as nat);
    lemma_dec_no_break(f.bl_node_id as nat);
    let s1 = "{\"tsMs\":"@ + dec(ts as nat);
    lemma_join_line("{\"tsMs\":"@, dec(ts as nat));
    let s2 = s1 + ",\"kind\":\"fwId\",\"versionMajor\":"@;
    lemma_join_line(s1, ",\"kind\":\"fwId\",\"versionMajor\":"@);
    let s3 = s2 + dec(f.version_major as nat);
    lemma_join_line(s2, dec(f.version_major as nat));
    let s4 = s3 + ",\"versionMinor\":"@;
    lemma_join_line(s3, ",\"versionMinor\":"@);
    let s5 = s4 + dec(f.version_minor as nat);
    lemma_join_line(s4, dec(f.version_minor as nat));
    let s6 = s5 + ",\"versionPatch\":"@;
    lemma_join_line(s5, ",\"versionPatch\":"@);
    let s7 = s6 + dec(f.version_patch as nat);
    lemma_join_line(s6, dec(f.version_patch as nat));
    let s8 = s7 + ",\"gitHash\":["@;
    lemma_join_line(s7, ",\"gitHash\":["@);
    let s9 = s8 + dec(f.git_hash@[0] as nat);
    lemma_join_line(s8, dec(f.git_hash@[0] as nat));
    let s10 = s9 + ","@;
    lemma_join_line(s9, ","@);
    let s11 = s10 + dec(f.git_hash@[1] as nat);
    lemma_join_line(s10, dec(f.git_hash@[1] as nat));
    let s12 = s11 + ","@;
    lemma_join_line(s11, ","@);
    let s13 = s12 + dec(f.git_hash@[2] as nat);
    lemma_join_line(s12, dec(f.git_hash@[2] as nat));
    let s14 = s13 + ","@;
    lemma_join_line(s13, ","@);
    let s15 = s14 + dec(f.git_hash@[3] as nat);
    lemma_join_line(s14, dec(f.git_hash@[3] as nat));
    let s16 = s15 + "],\"blNodeId\":"@;
    lemma_join_line(s15, "],\"blNodeId\":"@);
    let s17 = s16 + dec(f.bl_node_id as nat);
    lemma_join_line(s16, dec(f.bl_node_id as nat));
    let s18 = s17 + "}"@;
    lemma_join_line(s17, "}"@);
    assert(s18 == ams_fw_json_text(ts, f));
}

proof fn lemma_ams_pec_json_line(ts: u64, p: PerIcPecFrame)
    ensures
        json_object_line(ams_pec_json_text(ts, p)),
{
    reveal_strlit("{\"tsMs\":");
    reveal_strlit(",\"kind\":\"perIcPec\",\"firstIc\":");
    reveal_strlit(",\"valid\":");
    reveal_strlit(",\"counts\":[");
    reveal_strlit(",");
    reveal_strlit("]}");
    lemma_dec_no_break(ts as nat);
    lemma_dec_no_break(p.first_ic as nat);
    lemma_dec_no_break(p.valid as nat);
    lemma_join_dec_no_break(p.counts@.take(valid_count(p.valid)), 0, ","@);
    let s1 = "{\"tsMs\":"@ + dec(ts as nat);
    lemma_join_line("{\"tsMs\":"@, dec(ts as nat));
    let s2 = s1 + ",\"kind\":\"perIcPec\",\"firstIc\":"@;
    lemma_join_line(s1, ",\"kind\":\"perIcPec\",\"firstIc\":"@);
    let s3 = s2 + dec(p.first_ic as nat);
    lemma_join_line(s2, dec(p.first_ic as nat));
    let s4 = s3 + ",\"valid\":"@;
    lemma_join_line(s3, ",\"valid\":"@);
    let s5 = s4 + dec(p.valid as nat);
    lemma_join_line(s4, dec(p.valid as nat));
    let s6 = s5 + ",\"counts\":["@;
    lemma_join_line(s5, ",\"counts\":["@);
    let s7 = s6 + join_dec(p.counts@.take(valid_count(p.valid)), 0, ","@);
    lemma_join_line(s6, join_dec(p.counts@.take(valid_count(p.valid)), 0, ","@));
    let s8 = s7 + "]}"@;
    lemma_join_line(s7, "]}"@);
    assert(s8 == ams_pec_json_text(ts, p));
}

#[verifier::rlimit(40)]
proof fn lemma_ecu_status_json_line(ts: u64, v: EcuStatusFrame)
    ensures
        json_object_line(ecu_status_json_text(ts, v)),
{
    reveal_strlit("{\"tsMs\":");
    reveal_strlit(",\"kind\":\"ecuStatus\",\"fsmState\":\"");
    reveal_strlit("\",\"invState\":\"");
    reveal_strlit("\",\"ev23\":");
    reveal_strlit(",\"t11_8_9\":");
    reveal_strlit(",\"rtdsActive\":");
    reveal_strlit(",\"okPrecharge\":");
    reveal_strlit(",\"startButton\":");
    reveal_strlit(",\"dvMode\":");
    reveal_strlit(",\"torquePct\":");
    reveal_strlit(",\"vCellMinMv\":");
    reveal_strlit(",\"torqueCmd\":");
    reveal_strlit("}");
    lemma_dec_no_break(ts as nat);
    lemma_ecu_fsm_state_debug_no_break(v.fsm_state);
    lemma_ecu_inv_state_debug_no_break(v.inv_state);
    lemma_bool_no_break(v.ev_2_3);
    lemma_bool_no_break(v.t11_8_9);
    lemma_bool_no_break(v.rtds_active);
    lemma_bool_no_break(v.ok_precharge);
    lemma_bool_no_break(v.start_button);
    lemma_bool_no_break(v.dv_mode);
    lemma_dec_no_break(v.torque_pct as nat);
    lemma_dec_no_break(v.v_cell_min_mv as nat);
    lemma_dec_int_no_break(v.torque_cmd as int);
    let s1 = "{\"tsMs\":"@ + dec(ts as nat);
    lemma_join_line("{\"tsMs\":"@, dec(ts as nat));
    let s2 = s1 + ",\"kind\":\"ecuStatus\",\"fsmState\":\""@;
    lemma_join_line(s1, ",\"kind\":\"ecuStatus\",\"fsmState\":\""@);
    let s3 = s2 + ecu_fsm_state_debug(v.fsm_state);
    lemma_join_line(s2, ecu_fsm_state_debug(v.fsm_state));
    let s4 = s3 + "\",\"invState\":\""@;
    lemma_join_line(s3, "\",\"invState\":\""@);
    let s5 = s4 + ecu_inv_state_debug(v.inv_state);
    lemma_join_line(s4, ecu_inv_state_debug(v.inv_state));
    let s6 = s5 + "\",\"ev23\":"@;
    lemma_join_line(s5, "\",\"ev23\":"@);
    let s7 = s6 + bool_text(v.ev_2_3);
    lemma_join_line(s6, bool_text(v.ev_2_3));
    let s8 = s7 + ",\"t11_8_9\":"@;
    lemma_join_line(s7, ",\"t11_8_9\":"@);
    let s9 = s8 + bool_text(v.t11_8_9);
    lemma_join_line(s8, bool_text(v.t11_8_9));
    let s10 = s9 + ",\"rtdsActive\":"@;
    lemma_join_line(s9, ",\"rtdsActive\":"@);
    let s11 = s10 + bool_text(v.rtds_active);
    lemma_join_line(s10, bool_text(v.rtds_active));
    let s12 = s11 + ",\"okPrecharge\":"@;
    lemma_join_line(s11, ",\"okPrecharge\":"@);
    let s13 = s12 + bool_text(v.ok_precharge);
    lemma_join_line(s12, bool_text(v.ok_precharge));
    let s14 = s13 + ",\"startButton\":"@;
    lemma_join_line(s13, ",\"startButton\":"@);
    let s15 = s14 + bool_text(v.start_button);
    lemma_join_line(s14, bool_text(v.start_button));
    let s16 = s15 + ",\"dvMode\":"@;
    lemma_join_line(s15, ",\"dvMode\":"@);
    let s17 = s16 + bool_text(v.dv_mode);
    lemma_join_line(s16, bool_text(v.dv_mode));
    let s18 = s17 + ",\"torquePct\":"@;
    lemma_join_line(s17, ",\"torquePct\":"@);
    let s19 = s18 + dec(v.torque_pct as nat);
    lemma_join_line(s18, dec(v.torque_pct as nat));
    let s20 = s19 + ",\"vCellMinMv\":"@;
    lemma_join_line(s19, ",\"vCellMinMv\":"@);
    let s21 = s20 + dec(v.v_cell_min_mv as nat);
    lemma_join_line(s20, dec(v.v_cell_min_mv as nat));
    let s22 = s21 + ",\"torqueCmd\":"@;
    lemma_join_line(s21, ",\"torqueCmd\":"@);
    let s23 = s22 + dec_int(v.torque_cmd as int);
    lemma_join_line(s22, dec_int(v.torque_cmd as int));
    let s24 = s23 + "}"@;
    lemma_join_line(s23, "}"@);
    assert(s24 == ecu_status_json_text(ts, v));
}

proof fn lemma_ecu_pedals_json_line(ts: u64, v: EcuPedalsFrame)
    ensures
        json_object_line(ecu_pedals_json_text(ts, v)),
{
    reveal_strlit("{\"tsMs\":");
    reveal_strlit(",\"kind\":\"ecuPedals\",\"apps1Raw\":");
    reveal_strlit(",\"apps2Raw\":");
    reveal_strlit(",\"brakeRaw\":");
    reveal_strlit(",\"apps1Pct\":");
    reveal_strlit(",\"apps2Pct\":");
    reveal_strlit("}");
    lemma_dec_no_break(ts as nat);
    lemma_dec_no_break(v.apps1_raw as nat);
    lemma_dec_no_break(v.apps2_raw as nat);
    lemma_dec_no_break(v.brake_raw as nat);
    lemma_dec_no_break(v.apps1_pct as nat);
    lemma_dec_no_break(v.apps2_pct as nat);
    let s1 = "{\"tsMs\":"@ + dec(ts as nat);
    lemma_join_line("{\"tsMs\":"@, dec(ts as nat));
    let s2 = s1 + ",\"kind\":\"ecuPedals\",\"apps1Raw\":"@;
    lemma_join_line(s1, ",\"kind\":\"ecuPedals\",\"apps1Raw\":"@);
    let s3 = s2 + dec(v.apps1_raw as nat);
    lemma_join_line(s2, dec(v.apps1_raw as nat));
    let s4 = s3 + ",\"apps2Raw\":"@;
    lemma_join_line(s3, ",\"apps2Raw\":"@);
    let s5 = s4 + dec(v.apps2_raw as nat);
    lemma_join_line(s4, dec(v.apps2_raw as nat));
    let s6 = s5 + ",\"brakeRaw\":"@;
    lemma_join_line(s5, ",\"brakeRaw\":"@);
    let s7 = s6 + dec(v.brake_raw as nat);
    lemma_join_line(s6, dec(v.brake_raw as nat));
    let s8 = s7 + ",\"apps1Pct\":"@;
    lemma_join_line(s7, ",\"apps1Pct\":"@);
    let s9 = s8 + dec(v.apps1_pct as nat);
    lemma_join_line(s8, dec(v.apps1_pct as nat));
    let s10 = s9 + ",\"apps2Pct\":"@;
    lemma_join_line(s9, ",\"apps2Pct\":"@);
    let s11 = s10 + dec(v.apps2_pct as nat);
    lemma_join_line(s10, dec(v.apps2_pct as nat));
    let s12 = s11 + "}"@;
    lemma_join_line(s11, "}"@);
    assert(s12 == ecu_pedals_json_text(ts, v));
}

proof fn lemma_ecu_brake_json_line(ts: u64, v: EcuBrakeFrame)
    ensures
        json_object_line(ecu_brake_json_text(ts, v)),
{
    reveal_strlit("{\"tsMs\":");
    reveal_strlit(",\"kind\":\"ecuBrake\",\"brakePressureDbar\":");
    reveal_strlit(",\"brakePct\":");
    reveal_strlit("}");
    lemma_dec_no_break(ts as nat);
    lemma_dec_no_break(v.brake_pressure_dbar as nat);
    lemma_dec_no_break(v.brake_pct as nat);
    let s1 = "{\"tsMs\":"@ + dec(ts as nat);
    lemma_join_line("{\"tsMs\":"@, dec(ts as nat));
    let s2 = s1 + ",\"kind\":\"ecuBrake\",\"brakePressureDbar\":"@;
    lemma_join_line(s1, ",\"kind\":\"ecuBrake\",\"brakePressureDbar\":"@);
    let s3 = s2 + dec(v.brake_pressure_dbar as nat);
    lemma_join_line(s2, dec(v.brake_pressure_dbar as nat));
    let s4 = s3 + ",\"brakePct\":"@;
    lemma_join_line(s3, ",\"brakePct\":"@);
    let s5 = s4 + dec(v.brake_pct as nat);
    lemma_join_line(s4, dec(v.brake_pct as nat));
    let s6 = s5 + "}"@;
    lemma_join_line(s5, "}"@);
    assert(s6 == ecu_brake_json_text(ts, v));
}

proof fn lemma_ecu_inverter_json_line(ts: u64, v: EcuInverterFrame)
    ensures
        json_object_line(ecu_inverter_json_text(ts, v)),
{
    reveal_strlit("{\"tsMs\":");
    reveal_strlit(",\"kind\":\"ecuInverter\",\"dcBusVoltage\":");
    reveal_strlit(",\"invRpm\":");
    reveal_strlit(",\"invError\":");
    reveal_strlit("}");
    lemma_dec_no_break(ts as nat);
    lemma_dec_no_break(v.dc_bus_voltage as nat);
    lemma_dec_int_no_break(v.inv_rpm as int);
    lemma_dec_no_break(v.inv_error as nat);
    let s1 = "{\"tsMs\":"@ + dec(ts as nat);
    lemma_join_line("{\"tsMs\":"@, dec(ts as nat));
    let s2 = s1 + ",\"kind\":\"ecuInverter\",\"dcBusVoltage\":"@;
    lemma_join_line(s1, ",\"kind\":\"ecuInverter\",\"dcBusVoltage\":"@);
    let s3 = s2 + dec(v.dc_bus_voltage as nat);
    lemma_join_line(s2, dec(v.dc_bus_voltage as nat));
    let s4 = s3 + ",\"invRpm\":"@;
    lemma_join_line(s3, ",\"invRpm\":"@);
    let s5 = s4 + dec_int(v.inv_rpm as int);
    lemma_join_line(s4, dec_int(v.inv_rpm as int));
    let s6 = s5 + ",\"invError\":"@;
    lemma_join_line(s5, ",\"invError\":"@);
    let s7 = s6 + dec(v.inv_error as nat);
    lemma_join_line(s6, dec(v.inv_error as nat));
    let s8 = s7 + "}"@;
    lemma_join_line(s7, "}"@);
    assert(s8 == ecu_inverter_json_text(ts, v));
}

proof fn lemma_ecu_temps_json_line(ts: u64, v: EcuInverterTempsFrame)
    ensures
        json_object_line(ecu_temps_json_text(ts, v)),
{
    reveal_strlit("{\"tsMs\":");
    reveal_strlit(",\"kind\":\"ecuInverterTemps\",\"boardDegc\":");
    reveal_strlit(",\"pwrstgDegc\":");
    reveal_strlit(",\"motor1Degc\":");
    reveal_strlit(",\"motor2Degc\":");
    reveal_strlit("}");
    lemma_dec_no_break(ts as nat);
    lemma_dec_int_no_break(v.board_degc as int);
    lemma_dec_int_no_break(v.pwrstg_degc as int);
    lemma_dec_int_no_break(v.motor1_degc as int);
    lemma_dec_int_no_break(v.motor2_degc as int);
    let s1 = "{\"tsMs\":"@ + dec(ts as nat);
    lemma_join_line("{\"tsMs\":"@, dec(ts as nat));
    let s2 = s1 + ",\"kind\":\"ecuInverterTemps\",\"boardDegc\":"@;
    lemma_join_line(s1, ",\"kind\":\"ecuInverterTemps\",\"boardDegc\":"@);
    let s3 = s2 + dec_int(v.board_degc as int);
    lemma_join_line(s2, dec_int(v.board_degc as int));
    let s4 = s3 + ",\"pwrstgDegc\":"@;
    lemma_join_line(s3, ",\"pwrstgDegc\":"@);
    let s5 = s4 + dec_int(v.pwrstg_degc as int);
    lemma_join_line(s4, dec_int(v.pwrstg_degc as int));
    let s6 = s5 + ",\"motor1Degc\":"@;
    lemma_join_line(s5, ",\"motor1Degc\":"@);
    let s7 = s6 + dec_int(v.motor1_degc as int);
    lemma_join_line(s6, dec_int(v.motor1_degc as int));
    let s8 = s7 + ",\"motor2Degc\":"@;
    lemma_join_line(s7, ",\"motor2Degc\":"@);
    let s9 = s8 + dec_int(v.motor2_degc as int);
    lemma_join_line(s8, dec_int(v.motor2_degc as int));
    let s10 = s9 + "}"@;
    lemma_join_line(s9, "}"@);
    assert(s10 == ecu_temps_json_text(ts, v));
}

proof fn lemma_ecu_fw_json_line(ts: u64, v: EcuFwInfoFrame)
    ensures
        json_object_line(ecu_fw_json_text(ts, v)),
{
    reveal_strlit("{\"tsMs\":");
    reveal_strlit(",\"kind\":\"ecuFwInfo\",\"fwMajor\":");
    reveal_strlit(",\"fwMinor\":");
    reveal_strlit(",\"fwPatch\":");
    reveal_strlit(",\"gitHash\":[");
    reveal_strlit(",");
    reveal_strlit("]}");
    lemma_dec_no_break(ts as nat);
    lemma_dec_no_break(v.fw_major as nat);
    lemma_dec_no_break(v.fw_minor as nat);
    lemma_dec_no_break(v.fw_patch as nat);
    lemma_dec_no_break(v.git_hash@[0] as nat);
    lemma_dec_no_break(v.git_hash@[1] as nat);
    lemma_dec_no_break(v.git_hash@[2] as nat);
    lemma_dec_no_break(v.git_hash@[3] as nat);
    let s1 = "{\"tsMs\":"@ + dec(ts as nat);
    lemma_join_line("{\"tsMs\":"@, dec(ts as nat));
    let s2 = s1 + ",\"kind\":\"ecuFwInfo\",\"fwMajor\":"@;
    lemma_join_line(s1, ",\"kind\":\"ecuFwInfo\",\"fwMajor\":"@);
    let s3 = s2 + dec(v.fw_major as nat);
    lemma_join_line(s2, dec(v.fw_major as nat));
    let s4 = s3 + ",\"fwMinor\":"@;
    lemma_join_line(s3, ",\"fwMinor\":"@);
    let s5 = s4 + dec(v.fw_minor as nat);
    lemma_join_line(s4, dec(v.fw_minor as nat));
    let s6 = s5 + ",\"fwPatch\":"@;
    lemma_join_line(s5, ",\"fwPatch\":"@);
    let s7 = s6 + dec(v.fw_patch as nat);
    lemma_join_line(s6, dec(v.fw_patch as nat));
    let s8 = s7 + ",\"gitHash\":["@;
    lemma_join_line(s7, ",\"gitHash\":["@);
    let s9 = s8 + dec(v.git_hash@[0] as nat);
    lemma_join_line(s8, dec(v.git_hash@[0] as nat));
    let s10 = s9 + ","@;
    lemma_join_line(s9, ","@);
    let s11 = s10 + dec(v.git_hash@[1] as nat);
    lemma_join_line(s10, dec(v.git_hash@[1] as nat));
    let s12 = s11 + ","@;
    lemma_join_line(s11, ","@);
    let s13 = s12 + dec(v.git_hash@[2] as nat);
    lemma_join_line(s12, dec(v.git_hash@[2] as nat));
    let s14 = s13 + ","@;
    lemma_join_line(s13, ","@);
    let s15 = s14 + dec(v.git_hash@[3] as nat);
    lemma_join_line(s14, dec(v.git_hash@[3] as nat));
    let s16 = s15 + "]}"@;
    lemma_join_line(s15, "]}"@);
    assert(s16 == ecu_fw_json_text(ts, v));
}

proof fn lemma_ecu_health_json_line(ts: u64, v: EcuHealthFrame)
    ensures
        json_object_line(ecu_health_json_text(ts, v)),
{
    reveal_strlit("{\"tsMs\":");
    reveal_strlit(",\"kind\":\"ecuHealth\",\"freeHeap\":");
    reveal_strlit(",\"minFreeHeap\":");
    reveal_strlit(",\"taskControl\":");
    reveal_strlit(",\"taskCanRx\":");
    reveal_strlit(",\"taskCanTx\":");
    reveal_strlit(",\"taskDiag\":");
    reveal_strlit(",\"resetCause\":\"");
    reveal_strlit("\",\"uptimeS\":");
    reveal_strlit(",\"lastFault\":");
    reveal_strlit("}");
    lemma_dec_no_break(ts as nat);
    lemma_dec_no_break(v.free_heap as nat);
    lemma_dec_no_break(v.min_free_heap as nat);
    lemma_bool_no_break(v.task_control);
    lemma_bool_no_break(v.task_can_rx);
    lemma_bool_no_break(v.task_can_tx);
    lemma_bool_no_break(v.task_diag);
    lemma_ecu_reset_cause_debug_no_break(v.reset_cause);
    lemma_dec_no_break(v.uptime_s as nat);
    lemma_dec_no_break(v.last_fault as nat);
    let s1 = "{\"tsMs\":"@ + dec(ts as nat);
    lemma_join_line("{\"tsMs\":"@, dec(ts as nat));
    let s2 = s1 + ",\"kind\":\"ecuHealth\",\"freeHeap\":"@;
    lemma_join_line(s1, ",\"kind\":\"ecuHealth\",\"freeHeap\":"@);
    let s3 = s2 + dec(v.free_heap as nat);
    lemma_join_line(s2, dec(v.free_heap as nat));
    let s4 = s3 + ",\"minFreeHeap\":"@;
    lemma_join_line(s3, ",\"minFreeHeap\":"@);
    let s5 = s4 + dec(v.min_free_heap as nat);
    lemma_join_line(s4, dec(v.min_free_heap as nat));
    let s6 = s5 + ",\"taskControl\":"@;
    lemma_join_line(s5, ",\"taskControl\":"@);
    let s7 = s6 + bool_text(v.task_control);
    lemma_join_line(s6, bool_text(v.task_control));
    let s8 = s7 + ",\"taskCanRx\":"@;
    lemma_join_line(s7, ",\"taskCanRx\":"@);
    let s9 = s8 + bool_text(v.task_can_rx);
    lemma_join_line(s8, bool_text(v.task_can_rx));
    let s10 = s9 + ",\"taskCanTx\":"@;
    lemma_join_line(s9, ",\"taskCanTx\":"@);
    let s11 = s10 + bool_text(v.task_can_tx);
    lemma_join_line(s10, bool_text(v.task_can_tx));
    let s12 = s11 + ",\"taskDiag\":"@;
    lemma_join_line(s11, ",\"taskDiag\":"@);
    let s13 = s12 + bool_text(v.task_diag);
    lemma_join_line(s12, bool_text(v.task_diag));
    let s14 = s13 + ",\"resetCause\":\""@;
    lemma_join_line(s13, ",\"resetCause\":\""@);
    let s15 = s14 + ecu_reset_cause_debug(v.reset_cause);
    lemma_join_line(s14, ecu_reset_cause_debug(v.reset_cause));
    let s16 = s15 + "\",\"uptimeS\":"@;
    lemma_join_line(s15, "\",\"uptimeS\":"@);
    let s17 = s16 + dec(v.uptime_s as nat);
    lemma_join_line(s16, dec(v.uptime_s as nat));
    let s18 = s17 + ",\"lastFault\":"@;
    lemma_join_line(s17, ",\"lastFault\":"@);
    let s19 = s18 + dec(v.last_fault as nat);
    lemma_join_line(s18, dec(v.last_fault as nat));
    let s20 = s19 + "}"@;
    lemma_join_line(s19, "}"@);
    assert(s20 == ecu_health_json_text(ts, v));
}

proof fn lemma_ecu_dv_json_line(ts: u64, v: EcuDvFrame)
    ensures
        json_object_line(ecu_dv_json_text(ts, v)),
{
    reveal_strlit("{\"tsMs\":");
    reveal_strlit(",\"kind\":\"ecuDv\",\"dvR2dReq\":");
    reveal_strlit(",\"dvCmdFresh\":");
    reveal_strlit(",\"tsActive\":");
    reveal_strlit(",\"brakeOverLimit\":");
    reveal_strlit(",\"r2dConfirm\":");
    reveal_strlit(",\"dvTorquePct\":");
    reveal_strlit(",\"motorRpmMech\":");
    reveal_strlit("}");
    lemma_dec_no_break(ts as nat);
    lemma_bool_no_break(v.dv_r2d_req);
    lemma_bool_no_break(v.dv_cmd_fresh);
    lemma_bool_no_break(v.ts_active);
    lemma_bool_no_break(v.brake_over_limit);
    lemma_bool_no_break(v.r2d_confirm);
    lemma_dec_no_break(v.dv_torque_pct as nat);
    lemma_dec_int_no_break(v.motor_rpm_mech as int);
    let s1 = "{\"tsMs\":"@ + dec(ts as nat);
    lemma_join_line("{\"tsMs\":"@, dec(ts as nat));
    let s2 = s1 + ",\"kind\":\"ecuDv\",\"dvR2dReq\":"@;
    lemma_join_line(s1, ",\"kind\":\"ecuDv\",\"dvR2dReq\":"@);
    let s3 = s2 + bool_text(v.dv_r2d_req);
    lemma_join_line(s2, bool_text(v.dv_r2d_req));
    let s4 = s3 + ",\"dvCmdFresh\":"@;
    lemma_join_line(s3, ",\"dvCmdFresh\":"@);
    let s5 = s4 + bool_text(v.dv_cmd_fresh);
    lemma_join_line(s4, bool_text(v.dv_cmd_fresh));
    let s6 = s5 + ",\"tsActive\":"@;
    lemma_join_line(s5, ",\"tsActive\":"@);
    let s7 = s6 + bool_text(v.ts_active);
    lemma_join_line(s6, bool_text(v.ts_active));
    let s8 = s7 + ",\"brakeOverLimit\":"@;
    lemma_join_line(s7, ",\"brakeOverLimit\":"@);
    let s9 = s8 + bool_text(v.brake_over_limit);
    lemma_join_line(s8, bool_text(v.brake_over_limit));
    let s10 = s9 + ",\"r2dConfirm\":"@;
    lemma_join_line(s9, ",\"r2dConfirm\":"@);
    let s11 = s10 + bool_text(v.r2d_confirm);
    lemma_join_line(s10, bool_text(v.r2d_confirm));
    let s12 = s11 + ",\"dvTorquePct\":"@;
    lemma_join_line(s11, ",\"dvTorquePct\":"@);
    let s13 = s12 + dec(v.dv_torque_pct as nat);
    lemma_join_line(s12, dec(v.dv_torque_pct as nat));
    let s14 = s13 + ",\"motorRpmMech\":"@;
    lemma_join_line(s13, ",\"motorRpmMech\":"@);
    let s15 = s14 + dec_int(v.motor_rpm_mech as int);
    lemma_join_line(s14, dec_int(v.motor_rpm_mech as int));
    let s16 = s15 + "}"@;
    lemma_join_line(s15, "}"@);
    assert(s16 == ecu_dv_json_text(ts, v));
}

proof fn lemma_udv_status_json_line(ts: u64, v: UdvStatusFrame)
    ensures
        json_object_line(udv_status_json_text(ts, v)),
{
    reveal_strlit("{\"tsMs\":");
    reveal_strlit(",\"kind\":\"udvStatus\",\"asState\":\"");
    reveal_strlit("\",\"signals\":");
    reveal_strlit(",\"missionId\":");
    reveal_strlit(",\"ebsInit\":\"");
    reveal_strlit("\",\"stubMask\":");
    reveal_strlit(",\"assi\":\"");
    reveal_strlit("\",\"diagArmed\":");
    reveal_strlit("}");
    lemma_dec_no_break(ts as nat);
    lemma_udv_as_state_debug_no_break(v.as_state);
    lemma_dec_no_break(v.signals as nat);
    lemma_dec_int_no_break(v.mission_id as int);
    lemma_udv_ebs_init_debug_no_break(v.ebs_init);
    lemma_dec_no_break(v.stub_mask as nat);
    lemma_udv_assi_debug_no_break(v.assi);
    lemma_bool_no_break(v.diag_armed);
    let s1 = "{\"tsMs\":"@ + dec(ts as nat);
    lemma_join_line("{\"tsMs\":"@, dec(ts as nat));
    let s2 = s1 + ",\"kind\":\"udvStatus\",\"asState\":\""@;
    lemma_join_line(s1, ",\"kind\":\"udvStatus\",\"asState\":\""@);
    let s3 = s2 + udv_as_state_debug(v.as_state);
    lemma_join_line(s2, udv_as_state_debug(v.as_state));
    let s4 = s3 + "\",\"signals\":"@;
    lemma_join_line(s3, "\",\"signals\":"@);
    let s5 = s4 + dec(v.signals as nat);
    lemma_join_line(s4, dec(v.signals as nat));
    let s6 = s5 + ",\"missionId\":"@;
    lemma_join_line(s5, ",\"missionId\":"@);
    let s7 = s6 + dec_int(v.mission_id as int);
    lemma_join_line(s6, dec_int(v.mission_id as int));
    let s8 = s7 + ",\"ebsInit\":\""@;
    lemma_join_line(s7, ",\"ebsInit\":\""@);
    let s9 = s8 + udv_ebs_init_debug(v.ebs_init);
    lemma_join_line(s8, udv_ebs_init_debug(v.ebs_init));
    let s10 = s9 + "\",\"stubMask\":"@;
    lemma_join_line(s9, "\",\"stubMask\":"@);
    let s11 = s10 + dec(v.stub_mask as nat);
    lemma_join_line(s10, dec(v.stub_mask as nat));
    let s12 = s11 + ",\"assi\":\""@;
    lemma_join_line(s11, ",\"assi\":\""@);
    let s13 = s12 + udv_assi_debug(v.assi);
    lemma_join_line(s12, udv_assi_debug(v.assi));
    let s14 = s13 + "\",\"diagArmed\":"@;
    lemma_join_line(s13, "\",\"diagArmed\":"@);
    let s15 = s14 + bool_text(v.diag_armed);
    lemma_join_line(s14, bool_text(v.diag_armed));
    let s16 = s15 + "}"@;
    lemma_join_line(s15, "}"@);
    assert(s16 == udv_status_json_text(ts, v));
}

proof fn lemma_udv_res_json_line(ts: u64, v: UdvResFrame)
    ensures
        json_object_line(udv_res_json_text(ts, v)),
{
    reveal_strlit("{\"tsMs\":");
    reveal_strlit(",\"kind\":\"udvRes\",\"raw0x191\":");
    reveal_strlit(",\"resStatus\":\"");
    reveal_strlit("\",\"bits\":");
    reveal_strlit(",\"radioQuality\":");
    reveal_strlit(",\"resAgeMs\":");
    reveal_strlit(",\"steerMotor\":\"");
    reveal_strlit("\",\"lwsStatus\":");
    reveal_strlit("}");
    lemma_dec_no_break(ts as nat);
    lemma_dec_no_break(v.raw_0x191 as nat);
    lemma_udv_res_status_debug_no_break(v.res_status);
    lemma_dec_no_break(v.bits as nat);
    lemma_dec_no_break(v.radio_quality as nat);
    lemma_dec_no_break(v.res_age_ms as nat);
    lemma_udv_steer_motor_debug_no_break(v.steer_motor);
    lemma_dec_no_break(v.lws_status as nat);
    let s1 = "{\"tsMs\":"@ + dec(ts as nat);
    lemma_join_line("{\"tsMs\":"@, dec(ts as nat));
    let s2 = s1 + ",\"kind\":\"udvRes\",\"raw0x191\":"@;
    lemma_join_line(s1, ",\"kind\":\"udvRes\",\"raw0x191\":"@);
    let s3 = s2 + dec(v.raw_0x191 as nat);
    lemma_join_line(s2, dec(v.raw_0x191 as nat));
    let s4 = s3 + ",\"resStatus\":\""@;
    lemma_join_line(s3, ",\"resStatus\":\""@);
    let s5 = s4 + udv_res_status_debug(v.res_status);
    lemma_join_line(s4, udv_res_status_debug(v.res_status));
    let s6 = s5 + "\",\"bits\":"@;
    lemma_join_line(s5, "\",\"bits\":"@);
    let s7 = s6 + dec(v.bits as nat);
    lemma_join_line(s6, dec(v.bits as nat));
    let s8 = s7 + ",\"radioQuality\":"@;
    lemma_join_line(s7, ",\"radioQuality\":"@);
    let s9 = s8 + dec(v.radio_quality as nat);
    lemma_join_line(s8, dec(v.radio_quality as nat));
    let s10 = s9 + ",\"resAgeMs\":"@;
    lemma_join_line(s9, ",\"resAgeMs\":"@);
    let s11 = s10 + dec(v.res_age_ms as nat);
    lemma_join_line(s10, dec(v.res_age_ms as nat));
    let s12 = s11 + ",\"steerMotor\":\""@;
    lemma_join_line(s11, ",\"steerMotor\":\""@);
    let s13 = s12 + udv_steer_motor_debug(v.steer_motor);
    lemma_join_line(s12, udv_steer_motor_debug(v.steer_motor));
    let s14 = s13 + "\",\"lwsStatus\":"@;
    lemma_join_line(s13, "\",\"lwsStatus\":"@);
    let s15 = s14 + dec(v.lws_status as nat);
    lemma_join_line(s14, dec(v.lws_status as nat));
    let s16 = s15 + "}"@;
    lemma_join_line(s15, "}"@);
    assert(s16 == udv_res_json_text(ts, v));
}

proof fn lemma_udv_pipe_json_line(ts: u64, v: UdvPipeFrame)
    ensures
        json_object_line(udv_pipe_json_text(ts, v)),
{
    reveal_strlit("{\"tsMs\":");
    reveal_strlit(",\"kind\":\"udvPipe\",\"dvStatus\":");
    reveal_strlit(",\"dvAgeMs\":");
    reveal_strlit(",\"accelCmdPct\":");
    reveal_strlit(",\"steerCmd\":");
    reveal_strlit(",\"ctrlAgeMs\":");
    reveal_strlit(",\"setupBits\":");
    reveal_strlit("}");
    lemma_dec_no_break(ts as nat);
    lemma_dec_no_break(v.dv_status as nat);
    lemma_dec_no_break(v.dv_age_ms as nat);
    lemma_dec_int_no_break(v.accel_cmd_pct as int);
    lemma_dec_int_no_break(v.steer_cmd as int);
    lemma_dec_no_break(v.ctrl_age_ms as nat);
    lemma_dec_no_break(v.setup_bits as nat);
    let s1 = "{\"tsMs\":"@ + dec(ts as nat);
    lemma_join_line("{\"tsMs\":"@, dec(ts as nat));
    let s2 = s1 + ",\"kind\":\"udvPipe\",\"dvStatus\":"@;
    lemma_join_line(s1, ",\"kind\":\"udvPipe\",\"dvStatus\":"@);
    let s3 = s2 + dec(v.dv_status as nat);
    lemma_join_line(s2, dec(v.dv_status as nat));
    let s4 = s3 + ",\"dvAgeMs\":"@;
    lemma_join_line(s3, ",\"dvAgeMs\":"@);
    let s5 = s4 + dec(v.dv_age_ms as nat);
    lemma_join_line(s4, dec(v.dv_age_ms as nat));
    let s6 = s5 + ",\"accelCmdPct\":"@;
    lemma_join_line(s5, ",\"accelCmdPct\":"@);
    let s7 = s6 + dec_int(v.accel_cmd_pct as int);
    lemma_join_line(s6, dec_int(v.accel_cmd_pct as int));
    let s8 = s7 + ",\"steerCmd\":"@;
    lemma_join_line(s7, ",\"steerCmd\":"@);
    let s9 = s8 + dec_int(v.steer_cmd as int);
    lemma_join_line(s8, dec_int(v.steer_cmd as int));
    let s10 = s9 + ",\"ctrlAgeMs\":"@;
    lemma_join_line(s9, ",\"ctrlAgeMs\":"@);
    let s11 = s10 + dec(v.ctrl_age_ms as nat);
    lemma_join_line(s10, dec(v.ctrl_age_ms as nat));
    let s12 = s11 + ",\"setupBits\":"@;
    lemma_join_line(s11, ",\"setupBits\":"@);
    let s13 = s12 + dec(v.setup_bits as nat);
    lemma_join_line(s12, dec(v.setup_bits as nat));
    let s14 = s13 + "}"@;
    lemma_join_line(s13, "}"@);
    assert(s14 == udv_pipe_json_text(ts, v));
}

proof fn lemma_udv_health_json_line(ts: u64, v: UdvHealthFrame)
    ensures
        json_object_line(udv_health_json_text(ts, v)),
{
    reveal_strlit("{\"tsMs\":");
    reveal_strlit(",\"kind\":\"udvHealth\",\"freeHeapWords\":");
    reveal_strlit(",\"minFreeHeapWords\":");
    reveal_strlit(",\"taskMask\":");
    reveal_strlit(",\"flags\":");
    reveal_strlit(",\"stalledTask\":");
    reveal_strlit(",\"uptimeS\":");
    reveal_strlit("}");
    lemma_dec_no_break(ts as nat);
    lemma_dec_no_break(v.free_heap_words as nat);
    lemma_dec_no_break(v.min_free_heap_words as nat);
    lemma_dec_no_break(v.task_mask as nat);
    lemma_dec_no_break(v.flags as nat);
    lemma_dec_int_no_break(v.stalled_task as int);
    lemma_dec_no_break(v.uptime_s as nat);
    let s1 = "{\"tsMs\":"@ + dec(ts as nat);
    lemma_join_line("{\"tsMs\":"@, dec(ts as nat));
    let s2 = s1 + ",\"kind\":\"udvHealth\",\"freeHeapWords\":"@;
    lemma_join_line(s1, ",\"kind\":\"udvHealth\",\"freeHeapWords\":"@);
    let s3 = s2 + dec(v.free_heap_words as nat);
    lemma_join_line(s2, dec(v.free_heap_words as nat));
    let s4 = s3 + ",\"minFreeHeapWords\":"@;
    lemma_join_line(s3, ",\"minFreeHeapWords\":"@);
    let s5 = s4 + dec(v.min_free_heap_words as nat);
    lemma_join_line(s4, dec(v.min_free_heap_words as nat));
    let s6 = s5 + ",\"taskMask\":"@;
    lemma_join_line(s5, ",\"taskMask\":"@);
    let s7 = s6 + dec(v.task_mask as nat);
    lemma_join_line(s6, dec(v.task_mask as nat));
    let s8 = s7 + ",\"flags\":"@;
    lemma_join_line(s7, ",\"flags\":"@);
    let s9 = s8 + dec(v.flags as nat);
    lemma_join_line(s8, dec(v.flags as nat));
    let s10 = s9 + ",\"stalledTask\":"@;
    lemma_join_line(s9, ",\"stalledTask\":"@);
    let s11 = s10 + dec_int(v.stalled_task as int);
    lemma_join_line(s10, dec_int(v.stalled_task as int));
    let s12 = s11 + ",\"uptimeS\":"@;
    lemma_join_line(s11, ",\"uptimeS\":"@);
    let s13 = s12 + dec(v.uptime_s as nat);
    lemma_join_line(s12, dec(v.uptime_s as nat));
    let s14 = s13 + "}"@;
    lemma_join_line(s13, "}"@);
    assert(s14 == udv_health_json_text(ts, v));
}

proof fn lemma_udv_fw_json_line(ts: u64, v: UdvFwInfoFrame)
    ensures
        json_object_line(udv_fw_json_text(ts, v)),
{
    reveal_strlit("{\"tsMs\":");
    reveal_strlit(",\"kind\":\"udvFwInfo\",\"gitHash\":");
    reveal_strlit(",\"stubMask\":");
    reveal_strlit(",\"heapSizeKb\":");
    reveal_strlit(",\"uptimeS\":");
    reveal_strlit("}");
    lemma_dec_no_break(ts as nat);
    lemma_dec_no_break(v.git_hash as nat);
    lemma_dec_no_break(v.stub_mask as nat);
    lemma_dec_no_break(v.heap_size_kb as nat);
    lemma_dec_no_break(v.uptime_s as nat);
    let s1 = "{\"tsMs\":"@ + dec(ts as nat);
    lemma_join_line("{\"tsMs\":"@, dec(ts as nat));
    let s2 = s1 + ",\"kind\":\"udvFwInfo\",\"gitHash\":"@;
    lemma_join_line(s1, ",\"kind\":\"udvFwInfo\",\"gitHash\":"@);
    let s3 = s2 + dec(v.git_hash as nat);
    lemma_join_line(s2, dec(v.git_hash as nat));
    let s4 = s3 + ",\"stubMask\":"@;
    lemma_join_line(s3, ",\"stubMask\":"@);
    let s5 = s4 + dec(v.stub_mask as nat);
    lemma_join_line(s4, dec(v.stub_mask as nat));
    let s6 = s5 + ",\"heapSizeKb\":"@;
    lemma_join_line(s5, ",\"heapSizeKb\":"@);
    let s7 = s6 + dec(v.heap_size_kb as nat);
    lemma_join_line(s6, dec(v.heap_size_kb as nat));
    let s8 = s7 + ",\"uptimeS\":"@;
    lemma_join_line(s7, ",\"uptimeS\":"@);
    let s9 = s8 + dec(v.uptime_s as nat);
    lemma_join_line(s8, dec(v.uptime_s as nat));
    let s10 = s9 + "}"@;
    lemma_join_line(s9, "}"@);
    assert(s10 == udv_fw_json_text(ts, v));
}

proof fn lemma_udv_can_json_line(ts: u64, v: UdvCanHealthFrame)
    ensures
        json_object_line(udv_can_json_text(ts, v)),
{
    reveal_strlit("{\"tsMs\":");
    reveal_strlit(",\"kind\":\"udvCanHealth\",\"flags\":");
    reveal_strlit(",\"lastErrorCode\":");
    reveal_strlit(",\"txErrCount\":");
    reveal_strlit(",\"rxErrCount\":");
    reveal_strlit(",\"resRxCount\":");
    reveal_strlit(",\"nmtCount\":");
    reveal_strlit(",\"ackError\":");
    reveal_strlit("}");
    lemma_dec_no_break(ts as nat);
    lemma_dec_no_break(v.flags as nat);
    lemma_dec_no_break(v.last_error_code as nat);
    lemma_dec_no_break(v.tx_err_count as nat);
    lemma_dec_no_break(v.rx_err_count as nat);
    lemma_dec_no_break(v.res_rx_count as nat);
    lemma_dec_no_break(v.nmt_count as nat);
    lemma_bool_no_break(v.ack_error);
    let s1 = "{\"tsMs\":"@ + dec(ts as nat);
    lemma_join_line("{\"tsMs\":"@, dec(ts as nat));
    let s2 = s1 + ",\"kind\":\"udvCanHealth\",\"flags\":"@;
    lemma_join_line(s1, ",\"kind\":\"udvCanHealth\",\"flags\":"@);
    let s3 = s2 + dec(v.flags as nat);
    lemma_join_line(s2, dec(v.flags as nat));
    let s4 = s3 + ",\"lastErrorCode\":"@;
    lemma_join_line(s3, ",\"lastErrorCode\":"@);
    let s5 = s4 + dec(v.last_error_code as nat);
    lemma_join_line(s4, dec(v.last_error_code as nat));
    let s6 = s5 + ",\"txErrCount\":"@;
    lemma_join_line(s5, ",\"txErrCount\":"@);
    let s7 = s6 + dec(v.tx_err_count as nat);
    lemma_join_line(s6, dec(v.tx_err_count as nat));
    let s8 = s7 + ",\"rxErrCount\":"@;
    lemma_join_line(s7, ",\"rxErrCount\":"@);
    let s9 = s8 + dec(v.rx_err_count as nat);
    lemma_join_line(s8, dec(v.rx_err_count as nat));
    let s10 = s9 + ",\"resRxCount\":"@;
    lemma_join_line(s9, ",\"resRxCount\":"@);
    let s11 = s10 + dec(v.res_rx_count as nat);
    lemma_join_line(s10, dec(v.res_rx_count as nat));
    let s12 = s11 + ",\"nmtCount\":"@;
    lemma_join_line(s11, ",\"nmtCount\":"@);
    let s13 = s12 + dec(v.nmt_count as nat);
    lemma_join_line(s12, dec(v.nmt_count as nat));
    let s14 = s13 + ",\"ackError\":"@;
    lemma_join_line(s13, ",\"ackError\":"@);
    let s15 = s14 + bool_text(v.ack_error);
    lemma_join_line(s14, bool_text(v.ack_error));
    let s16 = s15 + "}"@;
    lemma_join_line(s15, "}"@);
    assert(s16 == udv_can_json_text(ts, v));
}

proof fn lemma_udv_calib_json_line(ts: u64, v: UdvCalibFrame)
    ensures
        json_object_line(udv_calib_json_text(ts, v)),
{
    reveal_strlit("{\"tsMs\":");
    reveal_strlit(",\"kind\":\"udvCalib\",\"phase\":");
    reveal_strlit(",\"error\":");
    reveal_strlit(",\"centerDdeg\":");
    reveal_strlit(",\"halfRangeDdeg\":");
    reveal_strlit(",\"limitDdeg\":");
    reveal_strlit("}");
    lemma_dec_no_break(ts as nat);
    lemma_dec_no_break(v.phase as nat);
    lemma_dec_no_break(v.error as nat);
    lemma_dec_int_no_break(v.center_ddeg as int);
    lemma_dec_int_no_break(v.half_range_ddeg as int);
    lemma_dec_int_no_break(v.limit_ddeg as int);
    let s1 = "{\"tsMs\":"@ + dec(ts as nat);
    lemma_join_line("{\"tsMs\":"@, dec(ts as nat));
    let s2 = s1 + ",\"kind\":\"udvCalib\",\"phase\":"@;
    lemma_join_line(s1, ",\"kind\":\"udvCalib\",\"phase\":"@);
    let s3 = s2 + dec(v.phase as nat);
    lemma_join_line(s2, dec(v.phase as nat));
    let s4 = s3 + ",\"error\":"@;
    lemma_join_line(s3, ",\"error\":"@);
    let s5 = s4 + dec(v.error as nat);
    lemma_join_line(s4, dec(v.error as nat));
    let s6 = s5 + ",\"centerDdeg\":"@;
    lemma_join_line(s5, ",\"centerDdeg\":"@);
    let s7 = s6 + dec_int(v.center_ddeg as int);
    lemma_join_line(s6, dec_int(v.center_ddeg as int));
    let s8 = s7 + ",\"halfRangeDdeg\":"@;
    lemma_join_line(s7, ",\"halfRangeDdeg\":"@);
    let s9 = s8 + dec_int(v.half_range_ddeg as int);
    lemma_join_line(s8, dec_int(v.half_range_ddeg as int));
    let s10 = s9 + ",\"limitDdeg\":"@;
    lemma_join_line(s9, ",\"limitDdeg\":"@);
    let s11 = s10 + dec_int(v.limit_ddeg as int);
    lemma_join_line(s10, dec_int(v.limit_ddeg as int));
    let s12 = s11 + "}"@;
    lemma_join_line(s11, "}"@);
    assert(s12 == udv_calib_json_text(ts, v));
}

// ---- The laws ----

/// Every NDJSON line written for an AMS frame is one JSON object on one
/// line: it opens with `{`, closes with `}` and holds no line break.
pub proof fn lemma_record_json_one_object(ts_ms: u64, record: PitDiagFrame)
    ensures
        json_object_line(record_json_text(ts_ms, record)),
{
    match record {
        PitDiagFrame::Ack { enabled } => lemma_ams_ack_json_line(ts_ms, enabled),
        PitDiagFrame::CellVoltage(c) => lemma_ams_cell_json_line(ts_ms, c),
        PitDiagFrame::NtcTemp(t) => lemma_ams_ntc_json_line(ts_ms, t),
        PitDiagFrame::FsmStatus(f) => lemma_ams_fsm_json_line(ts_ms, f),
        PitDiagFrame::PollTiming(p) => lemma_ams_poll_json_line(ts_ms, p),
        PitDiagFrame::BalanceMaskA(b) => lemma_ams_bal_a_json_line(ts_ms, b),
        PitDiagFrame::BalanceMaskB(b) => lemma_ams_bal_b_json_line(ts_ms, b),
        PitDiagFrame::BootDiag(b) => lemma_ams_boot_json_line(ts_ms, b),
        PitDiagFrame::PostMortem(p) => lemma_ams_crash_json_line(ts_ms, p),
        PitDiagFrame::FwId(f) => lemma_ams_fw_json_line(ts_ms, f),
        PitDiagFrame::PerIcPec(p) => lemma_ams_pec_json_line(ts_ms, p),
    }
}

/// Every NDJSON line written for an ECU frame is one JSON object on one
/// line: it opens with `{`, closes with `}` and holds no line break.
pub proof fn lemma_ecu_json_one_object(ts_ms: u64, record: EcuPitDiagFrame)
    ensures
        json_object_line(ecu_json_text(ts_ms, record)),
{
    match record {
        EcuPitDiagFrame::Ack { enabled } => lemma_ams_ack_json_line(ts_ms, enabled),
        EcuPitDiagFrame::Status(v) => lemma_ecu_status_json_line(ts_ms, v),
        EcuPitDiagFrame::Pedals(v) => lemma_ecu_pedals_json_line(ts_ms, v),
        EcuPitDiagFrame::Brake(v) => lemma_ecu_brake_json_line(ts_ms, v),
        EcuPitDiagFrame::Inverter(v) => lemma_ecu_inverter_json_line(ts_ms, v),
        EcuPitDiagFrame::InverterTemps(v) => lemma_ecu_temps_json_line(ts_ms, v),
        EcuPitDiagFrame::FwInfo(v) => lemma_ecu_fw_json_line(ts_ms, v),
        EcuPitDiagFrame::Health(v) => lemma_ecu_health_json_line(ts_ms, v),
        EcuPitDiagFrame::Dv(v) => lemma_ecu_dv_json_line(ts_ms, v),
    }
}

/// Every NDJSON line written for a uDV frame is one JSON object on one
/// line: it opens with `{`, closes with `}` and holds no line break.
pub proof fn lemma_udv_json_one_object(ts_ms: u64, record: UdvPitDiagFrame)
    ensures
        json_object_line(udv_json_text(ts_ms, record)),
{
    match record {
        UdvPitDiagFrame::Status(v) => lemma_udv_status_json_line(ts_ms, v),
        UdvPitDiagFrame::Res(v) => lemma_udv_res_json_line(ts_ms, v),
        UdvPitDiagFrame::Pipe(v) => lemma_udv_pipe_json_line(ts_ms, v),
        UdvPitDiagFrame::Health(v) => lemma_udv_health_json_line(ts_ms, v),
        UdvPitDiagFrame::FwInfo(v) => lemma_udv_fw_json_line(ts_ms, v),
        UdvPitDiagFrame::CanHealth(v) => lemma_udv_can_json_line(ts_ms, v),
        UdvPitDiagFrame::Calib(v) => lemma_udv_calib_json_line(ts_ms, v),
    }
}

} // verus!
