//! Text names of the decoded enums: the `{:?}` renderings the terminal
//! observer prints and the camelCase names the desktop front-end switches on.
use vstd::prelude::*;
use crate::pit_diag::ecu::{EcuFsmState, EcuInvState, EcuResetCause};
use crate::pit_diag::udv::{UdvAsState, UdvAssi, UdvEbsInit, UdvResStatus, UdvSteerMotor};
use crate::pit_diag::{FaultReason, FsmState, JumpReason, ModeLock};
use crate::text::{dec, dec_int, hex_upper, push_dec, push_hex_upper, push_int_right};

verus! {

/// `{:?}` of an AMS FSM state.
pub open spec fn fsm_state_debug(v: FsmState) -> Seq<char> {
    match v {
        FsmState::Start => "Start"@,
        FsmState::Precharge => "Precharge"@,
        FsmState::Transition => "Transition"@,
        FsmState::Run => "Run"@,
        FsmState::Charge => "Charge"@,
        FsmState::Error => "Error"@,
        FsmState::Unknown(b) => "Unknown("@ + dec(b as nat) + ")"@,
    }
}

/// Append [`fsm_state_debug`] of `v`.
pub fn push_fsm_state_debug(out: &mut String, v: FsmState)
    ensures
        final(out)@ == old(out)@ + fsm_state_debug(v),
{
    match v {
        FsmState::Start => out.append("Start"),
        FsmState::Precharge => out.append("Precharge"),
        FsmState::Transition => out.append("Transition"),
        FsmState::Run => out.append("Run"),
        FsmState::Charge => out.append("Charge"),
        FsmState::Error => out.append("Error"),
        FsmState::Unknown(b) => {
            out.append("Unknown(");
            push_dec(out, b as u64);
            out.append(")");
            assert(out@ =~= old(out)@ + fsm_state_debug(v));
        },
    }
}

/// `{:?}` of a mode lock.
pub open spec fn mode_lock_debug(v: ModeLock) -> Seq<char> {
    match v {
        ModeLock::Undecided => "Undecided"@,
        ModeLock::Car => "Car"@,
        ModeLock::Charger => "Charger"@,
        ModeLock::Unknown(b) => "Unknown("@ + dec(b as nat) + ")"@,
    }
}

/// Append [`mode_lock_debug`] of `v`.
pub fn push_mode_lock_debug(out: &mut String, v: ModeLock)
    ensures
        final(out)@ == old(out)@ + mode_lock_debug(v),
{
    match v {
        ModeLock::Undecided => out.append("Undecided"),
        ModeLock::Car => out.append("Car"),
        ModeLock::Charger => out.append("Charger"),
        ModeLock::Unknown(b) => {
            out.append("Unknown(");
            push_dec(out, b as u64);
            out.append(")");
            assert(out@ =~= old(out)@ + mode_lock_debug(v));
        },
    }
}

/// `{:?}` of a fault reason (the healthy value reads `None`).
pub open spec fn fault_reason_debug(v: FaultReason) -> Seq<char> {
    match v {
        FaultReason::NoFault => "None"@,
        FaultReason::ForceError => "ForceError"@,
        FaultReason::BmsModuleOffline => "BmsModuleOffline"@,
        FaultReason::BmsStale => "BmsStale"@,
        FaultReason::CellUnderVoltage => "CellUnderVoltage"@,
        FaultReason::CellOverVoltage => "CellOverVoltage"@,
        FaultReason::CellUnderTemp => "CellUnderTemp"@,
        FaultReason::CellOverTemp => "CellOverTemp"@,
        FaultReason::CurrentSensorFault => "CurrentSensorFault"@,
        FaultReason::CurrentStale => "CurrentStale"@,
        FaultReason::CurrentOverLimit => "CurrentOverLimit"@,
        FaultReason::VcuStale => "VcuStale"@,
        FaultReason::FsmError => "FsmError"@,
        FaultReason::Unknown(b) => "Unknown("@ + dec(b as nat) + ")"@,
    }
}

/// Append [`fault_reason_debug`] of `v`.
pub fn push_fault_reason_debug(out: &mut String, v: FaultReason)
    ensures
        final(out)@ == old(out)@ + fault_reason_debug(v),
{
    match v {
        FaultReason::NoFault => out.append("None"),
        FaultReason::ForceError => out.append("ForceError"),
        FaultReason::BmsModuleOffline => out.append("BmsModuleOffline"),
        FaultReason::BmsStale => out.append("BmsStale"),
        FaultReason::CellUnderVoltage => out.append("CellUnderVoltage"),
        FaultReason::CellOverVoltage => out.append("CellOverVoltage"),
        FaultReason::CellUnderTemp => out.append("CellUnderTemp"),
        FaultReason::CellOverTemp => out.append("CellOverTemp"),
        FaultReason::CurrentSensorFault => out.append("CurrentSensorFault"),
        FaultReason::CurrentStale => out.append("CurrentStale"),
        FaultReason::CurrentOverLimit => out.append("CurrentOverLimit"),
        FaultReason::VcuStale => out.append("VcuStale"),
        FaultReason::FsmError => out.append("FsmError"),
        FaultReason::Unknown(b) => {
            out.append("Unknown(");
            push_dec(out, b as u64);
            out.append(")");
            assert(out@ =~= old(out)@ + fault_reason_debug(v));
        },
    }
}

/// `{:?}` of a boot jump reason.
pub open spec fn jump_reason_debug(v: JumpReason) -> Seq<char> {
    match v {
        JumpReason::PowerOn => "PowerOn"@,
        JumpReason::CanTrigger => "CanTrigger"@,
        JumpReason::Manual => "Manual"@,
        JumpReason::Unknown(b) => "Unknown("@ + dec(b as nat) + ")"@,
    }
}

/// Append [`jump_reason_debug`] of `v`.
pub fn push_jump_reason_debug(out: &mut String, v: JumpReason)
    ensures
        final(out)@ == old(out)@ + jump_reason_debug(v),
{
    match v {
        JumpReason::PowerOn => out.append("PowerOn"),
        JumpReason::CanTrigger => out.append("CanTrigger"),
        JumpReason::Manual => out.append("Manual"),
        JumpReason::Unknown(b) => {
            out.append("Unknown(");
            push_dec(out, b as u64);
            out.append(")");
            assert(out@ =~= old(out)@ + jump_reason_debug(v));
        },
    }
}

/// `{:?}` of an ECU FSM state.
pub open spec fn ecu_fsm_state_debug(v: EcuFsmState) -> Seq<char> {
    match v {
        EcuFsmState::WaitInvVdcConfig => "WaitInvVdcConfig"@,
        EcuFsmState::Precharge => "Precharge"@,
        EcuFsmState::WaitStartBrake => "WaitStartBrake"@,
        EcuFsmState::R2dDelay => "R2dDelay"@,
        EcuFsmState::WaitInvStandby => "WaitInvStandby"@,
        EcuFsmState::Active => "Active"@,
        EcuFsmState::AmsError => "AmsError"@,
        EcuFsmState::Unknown(b) => "Unknown("@ + dec(b as nat) + ")"@,
    }
}

/// Append [`ecu_fsm_state_debug`] of `v`.
pub fn push_ecu_fsm_state_debug(out: &mut String, v: EcuFsmState)
    ensures
        final(out)@ == old(out)@ + ecu_fsm_state_debug(v),
{
    match v {
        EcuFsmState::WaitInvVdcConfig => out.append("WaitInvVdcConfig"),
        EcuFsmState::Precharge => out.append("Precharge"),
        EcuFsmState::WaitStartBrake => out.append("WaitStartBrake"),
        EcuFsmState::R2dDelay => out.append("R2dDelay"),
        EcuFsmState::WaitInvStandby => out.append("WaitInvStandby"),
        EcuFsmState::Active => out.append("Active"),
        EcuFsmState::AmsError => out.append("AmsError"),
        EcuFsmState::Unknown(b) => {
            out.append("Unknown(");
            push_dec(out, b as u64);
            out.append(")");
            assert(out@ =~= old(out)@ + ecu_fsm_state_debug(v));
        },
    }
}

/// `{:?}` of an inverter state.
pub open spec fn ecu_inv_state_debug(v: EcuInvState) -> Seq<char> {
    match v {
        EcuInvState::Standby => "Standby"@,
        EcuInvState::Ready => "Ready"@,
        EcuInvState::Unknown(b) => "Unknown("@ + dec(b as nat) + ")"@,
    }
}

/// Append [`ecu_inv_state_debug`] of `v`.
pub fn push_ecu_inv_state_debug(out: &mut String, v: EcuInvState)
    ensures
        final(out)@ == old(out)@ + ecu_inv_state_debug(v),
{
    match v {
        EcuInvState::Standby => out.append("Standby"),
        EcuInvState::Ready => out.append("Ready"),
        EcuInvState::Unknown(b) => {
            out.append("Unknown(");
            push_dec(out, b as u64);
            out.append(")");
            assert(out@ =~= old(out)@ + ecu_inv_state_debug(v));
        },
    }
}

/// `{:?}` of a reset cause.
pub open spec fn ecu_reset_cause_debug(v: EcuResetCause) -> Seq<char> {
    match v {
        EcuResetCause::Unknown => "Unknown"@,
        EcuResetCause::PowerOn => "PowerOn"@,
        EcuResetCause::Pin => "Pin"@,
        EcuResetCause::Software => "Software"@,
        EcuResetCause::Iwdg => "Iwdg"@,
        EcuResetCause::Wwdg => "Wwdg"@,
        EcuResetCause::LowPower => "LowPower"@,
        EcuResetCause::Other(b) => "Other("@ + dec(b as nat) + ")"@,
    }
}

/// Append [`ecu_reset_cause_debug`] of `v`.
pub fn push_ecu_reset_cause_debug(out: &mut String, v: EcuResetCause)
    ensures
        final(out)@ == old(out)@ + ecu_reset_cause_debug(v),
{
    match v {
        EcuResetCause::Unknown => out.append("Unknown"),
        EcuResetCause::PowerOn => out.append("PowerOn"),
        EcuResetCause::Pin => out.append("Pin"),
        EcuResetCause::Software => out.append("Software"),
        EcuResetCause::Iwdg => out.append("Iwdg"),
        EcuResetCause::Wwdg => out.append("Wwdg"),
        EcuResetCause::LowPower => out.append("LowPower"),
        EcuResetCause::Other(b) => {
            out.append("Other(");
            push_dec(out, b as u64);
            out.append(")");
            assert(out@ =~= old(out)@ + ecu_reset_cause_debug(v));
        },
    }
}

/// `{:?}` of a uDV AS state.
pub open spec fn udv_as_state_debug(v: UdvAsState) -> Seq<char> {
    match v {
        UdvAsState::Off => "Off"@,
        UdvAsState::Ready => "Ready"@,
        UdvAsState::Driving => "Driving"@,
        UdvAsState::Emergency => "Emergency"@,
        UdvAsState::Finished => "Finished"@,
        UdvAsState::Other(b) => "Other("@ + dec(b as nat) + ")"@,
    }
}

/// Append [`udv_as_state_debug`] of `v`.
pub fn push_udv_as_state_debug(out: &mut String, v: UdvAsState)
    ensures
        final(out)@ == old(out)@ + udv_as_state_debug(v),
{
    match v {
        UdvAsState::Off => out.append("Off"),
        UdvAsState::Ready => out.append("Ready"),
        UdvAsState::Driving => out.append("Driving"),
        UdvAsState::Emergency => out.append("Emergency"),
        UdvAsState::Finished => out.append("Finished"),
        UdvAsState::Other(b) => {
            out.append("Other(");
            push_dec(out, b as u64);
            out.append(")");
            assert(out@ =~= old(out)@ + udv_as_state_debug(v));
        },
    }
}

/// [`udv_as_state_debug`] as an owned string.
pub fn udv_as_state_debug_string(v: UdvAsState) -> (s: String)
    ensures
        s@ == udv_as_state_debug(v),
{
    let mut s = String::new();
    push_udv_as_state_debug(&mut s, v);
    s
}

/// `{:?}` of an EBS-init step.
pub open spec fn udv_ebs_init_debug(v: UdvEbsInit) -> Seq<char> {
    match v {
        UdvEbsInit::Start => "Start"@,
        UdvEbsInit::WaitLow => "WaitLow"@,
        UdvEbsInit::CheckPressure => "CheckPressure"@,
        UdvEbsInit::WaitTs => "WaitTs"@,
        UdvEbsInit::CheckAct1 => "CheckAct1"@,
        UdvEbsInit::WaitInter => "WaitInter"@,
        UdvEbsInit::CheckAct2 => "CheckAct2"@,
        UdvEbsInit::Failed => "Failed"@,
        UdvEbsInit::Done => "Done"@,
        UdvEbsInit::Other(b) => "Other("@ + dec(b as nat) + ")"@,
    }
}

/// Append [`udv_ebs_init_debug`] of `v`.
pub fn push_udv_ebs_init_debug(out: &mut String, v: UdvEbsInit)
    ensures
        final(out)@ == old(out)@ + udv_ebs_init_debug(v),
{
    match v {
        UdvEbsInit::Start => out.append("Start"),
        UdvEbsInit::WaitLow => out.append("WaitLow"),
        UdvEbsInit::CheckPressure => out.append("CheckPressure"),
        UdvEbsInit::WaitTs => out.append("WaitTs"),
        UdvEbsInit::CheckAct1 => out.append("CheckAct1"),
        UdvEbsInit::WaitInter => out.append("WaitInter"),
        UdvEbsInit::CheckAct2 => out.append("CheckAct2"),
        UdvEbsInit::Failed => out.append("Failed"),
        UdvEbsInit::Done => out.append("Done"),
        UdvEbsInit::Other(b) => {
            out.append("Other(");
            push_dec(out, b as u64);
            out.append(")");
            assert(out@ =~= old(out)@ + udv_ebs_init_debug(v));
        },
    }
}

/// [`udv_ebs_init_debug`] as an owned string.
pub fn udv_ebs_init_debug_string(v: UdvEbsInit) -> (s: String)
    ensures
        s@ == udv_ebs_init_debug(v),
{
    let mut s = String::new();
    push_udv_ebs_init_debug(&mut s, v);
    s
}

/// `{:?}` of an ASSI state.
pub open spec fn udv_assi_debug(v: UdvAssi) -> Seq<char> {
    match v {
        UdvAssi::Off => "Off"@,
        UdvAssi::Ready => "Ready"@,
        UdvAssi::Driving => "Driving"@,
        UdvAssi::Emergency => "Emergency"@,
        UdvAssi::Finished => "Finished"@,
        UdvAssi::Other(b) => "Other("@ + dec(b as nat) + ")"@,
    }
}

/// Append [`udv_assi_debug`] of `v`.
pub fn push_udv_assi_debug(out: &mut String, v: UdvAssi)
    ensures
        final(out)@ == old(out)@ + udv_assi_debug(v),
{
    match v {
        UdvAssi::Off => out.append("Off"),
        UdvAssi::Ready => out.append("Ready"),
        UdvAssi::Driving => out.append("Driving"),
        UdvAssi::Emergency => out.append("Emergency"),
        UdvAssi::Finished => out.append("Finished"),
        UdvAssi::Other(b) => {
            out.append("Other(");
            push_dec(out, b as u64);
            out.append(")");
            assert(out@ =~= old(out)@ + udv_assi_debug(v));
        },
    }
}

/// [`udv_assi_debug`] as an owned string.
pub fn udv_assi_debug_string(v: UdvAssi) -> (s: String)
    ensures
        s@ == udv_assi_debug(v),
{
    let mut s = String::new();
    push_udv_assi_debug(&mut s, v);
    s
}

/// `{:?}` of a RES status (the `-2` and `0` states read `None` and `Ok`).
pub open spec fn udv_res_status_debug(v: UdvResStatus) -> Seq<char> {
    match v {
        UdvResStatus::NoStatus => "None"@,
        UdvResStatus::Timeout => "Timeout"@,
        UdvResStatus::Okay => "Ok"@,
        UdvResStatus::Estop => "Estop"@,
        UdvResStatus::Go => "Go"@,
        UdvResStatus::Other(b) => "Other("@ + dec_int(b as int) + ")"@,
    }
}

/// Append [`udv_res_status_debug`] of `v`.
pub fn push_udv_res_status_debug(out: &mut String, v: UdvResStatus)
    ensures
        final(out)@ == old(out)@ + udv_res_status_debug(v),
{
    match v {
        UdvResStatus::NoStatus => out.append("None"),
        UdvResStatus::Timeout => out.append("Timeout"),
        UdvResStatus::Okay => out.append("Ok"),
        UdvResStatus::Estop => out.append("Estop"),
        UdvResStatus::Go => out.append("Go"),
        UdvResStatus::Other(b) => {
            out.append("Other(");
            push_int_right(out, b as i64, 0);
            out.append(")");
            proof {
                assert(crate::text::pad_left(dec_int(b as int), 0, ' ') == dec_int(b as int));
            }
            assert(out@ =~= old(out)@ + udv_res_status_debug(v));
        },
    }
}

/// [`udv_res_status_debug`] as an owned string.
pub fn udv_res_status_debug_string(v: UdvResStatus) -> (s: String)
    ensures
        s@ == udv_res_status_debug(v),
{
    let mut s = String::new();
    push_udv_res_status_debug(&mut s, v);
    s
}

/// `{:?}` of a steering-motor state.
pub open spec fn udv_steer_motor_debug(v: UdvSteerMotor) -> Seq<char> {
    match v {
        UdvSteerMotor::Emergency => "Emergency"@,
        UdvSteerMotor::Off => "Off"@,
        UdvSteerMotor::On => "On"@,
        UdvSteerMotor::Other(b) => "Other("@ + dec_int(b as int) + ")"@,
    }
}

/// Append [`udv_steer_motor_debug`] of `v`.
pub fn push_udv_steer_motor_debug(out: &mut String, v: UdvSteerMotor)
    ensures
        final(out)@ == old(out)@ + udv_steer_motor_debug(v),
{
    match v {
        UdvSteerMotor::Emergency => out.append("Emergency"),
        UdvSteerMotor::Off => out.append("Off"),
        UdvSteerMotor::On => out.append("On"),
        UdvSteerMotor::Other(b) => {
            out.append("Other(");
            push_int_right(out, b as i64, 0);
            out.append(")");
            proof {
                assert(crate::text::pad_left(dec_int(b as int), 0, ' ') == dec_int(b as int));
            }
            assert(out@ =~= old(out)@ + udv_steer_motor_debug(v));
        },
    }
}

/// [`udv_steer_motor_debug`] as an owned string.
pub fn udv_steer_motor_debug_string(v: UdvSteerMotor) -> (s: String)
    ensures
        s@ == udv_steer_motor_debug(v),
{
    let mut s = String::new();
    push_udv_steer_motor_debug(&mut s, v);
    s
}

/// UI name of an AMS FSM state.
pub open spec fn fsm_state_ui(v: FsmState) -> Seq<char> {
    match v {
        FsmState::Start => "start"@,
        FsmState::Precharge => "precharge"@,
        FsmState::Transition => "transition"@,
        FsmState::Run => "run"@,
        FsmState::Charge => "charge"@,
        FsmState::Error => "error"@,
        FsmState::Unknown(b) => "unknown(0x"@ + hex_upper(b as nat, 2) + ")"@,
    }
}

/// Append [`fsm_state_ui`] of `v`.
pub fn push_fsm_state_name(out: &mut String, v: FsmState)
    ensures
        final(out)@ == old(out)@ + fsm_state_ui(v),
{
    match v {
        FsmState::Start => out.append("start"),
        FsmState::Precharge => out.append("precharge"),
        FsmState::Transition => out.append("transition"),
        FsmState::Run => out.append("run"),
        FsmState::Charge => out.append("charge"),
        FsmState::Error => out.append("error"),
        FsmState::Unknown(b) => {
            out.append("unknown(0x");
            push_hex_upper(out, b as u64, 2);
            out.append(")");
            assert(out@ =~= old(out)@ + fsm_state_ui(v));
        },
    }
}

/// [`fsm_state_ui`] as an owned string.
pub fn fsm_state_name(v: FsmState) -> (s: String)
    ensures
        s@ == fsm_state_ui(v),
{
    let mut s = String::new();
    push_fsm_state_name(&mut s, v);
    s
}

/// UI name of a mode lock.
pub open spec fn mode_lock_ui(v: ModeLock) -> Seq<char> {
    match v {
        ModeLock::Undecided => "undecided"@,
        ModeLock::Car => "car"@,
        ModeLock::Charger => "charger"@,
        ModeLock::Unknown(b) => "unknown(0x"@ + hex_upper(b as nat, 2) + ")"@,
    }
}

/// Append [`mode_lock_ui`] of `v`.
pub fn push_mode_lock_name(out: &mut String, v: ModeLock)
    ensures
        final(out)@ == old(out)@ + mode_lock_ui(v),
{
    match v {
        ModeLock::Undecided => out.append("undecided"),
        ModeLock::Car => out.append("car"),
        ModeLock::Charger => out.append("charger"),
        ModeLock::Unknown(b) => {
            out.append("unknown(0x");
            push_hex_upper(out, b as u64, 2);
            out.append(")");
            assert(out@ =~= old(out)@ + mode_lock_ui(v));
        },
    }
}

/// [`mode_lock_ui`] as an owned string.
pub fn mode_lock_name(v: ModeLock) -> (s: String)
    ensures
        s@ == mode_lock_ui(v),
{
    let mut s = String::new();
    push_mode_lock_name(&mut s, v);
    s
}

/// UI name of a fault reason.
pub open spec fn fault_reason_ui(v: FaultReason) -> Seq<char> {
    match v {
        FaultReason::NoFault => "none"@,
        FaultReason::ForceError => "forceError"@,
        FaultReason::BmsModuleOffline => "bmsModuleOffline"@,
        FaultReason::BmsStale => "bmsStale"@,
        FaultReason::CellUnderVoltage => "cellUnderVoltage"@,
        FaultReason::CellOverVoltage => "cellOverVoltage"@,
        FaultReason::CellUnderTemp => "cellUnderTemp"@,
        FaultReason::CellOverTemp => "cellOverTemp"@,
        FaultReason::CurrentSensorFault => "currentSensorFault"@,
        FaultReason::CurrentStale => "currentStale"@,
        FaultReason::CurrentOverLimit => "currentOverLimit"@,
        FaultReason::VcuStale => "vcuStale"@,
        FaultReason::FsmError => "fsmError"@,
        FaultReason::Unknown(b) => "unknown(0x"@ + hex_upper(b as nat, 2) + ")"@,
    }
}

/// Append [`fault_reason_ui`] of `v`.
pub fn push_fault_reason_name(out: &mut String, v: FaultReason)
    ensures
        final(out)@ == old(out)@ + fault_reason_ui(v),
{
    match v {
        FaultReason::NoFault => out.append("none"),
        FaultReason::ForceError => out.append("forceError"),
        FaultReason::BmsModuleOffline => out.append("bmsModuleOffline"),
        FaultReason::BmsStale => out.append("bmsStale"),
        FaultReason::CellUnderVoltage => out.append("cellUnderVoltage"),
        FaultReason::CellOverVoltage => out.append("cellOverVoltage"),
        FaultReason::CellUnderTemp => out.append("cellUnderTemp"),
        FaultReason::CellOverTemp => out.append("cellOverTemp"),
        FaultReason::CurrentSensorFault => out.append("currentSensorFault"),
        FaultReason::CurrentStale => out.append("currentStale"),
        FaultReason::CurrentOverLimit => out.append("currentOverLimit"),
        FaultReason::VcuStale => out.append("vcuStale"),
        FaultReason::FsmError => out.append("fsmError"),
        FaultReason::Unknown(b) => {
            out.append("unknown(0x");
            push_hex_upper(out, b as u64, 2);
            out.append(")");
            assert(out@ =~= old(out)@ + fault_reason_ui(v));
        },
    }
}

/// [`fault_reason_ui`] as an owned string.
pub fn fault_reason_name(v: FaultReason) -> (s: String)
    ensures
        s@ == fault_reason_ui(v),
{
    let mut s = String::new();
    push_fault_reason_name(&mut s, v);
    s
}

/// UI name of a boot jump reason.
pub open spec fn jump_reason_ui(v: JumpReason) -> Seq<char> {
    match v {
        JumpReason::PowerOn => "powerOn"@,
        JumpReason::CanTrigger => "canTrigger"@,
        JumpReason::Manual => "manual"@,
        JumpReason::Unknown(b) => "unknown(0x"@ + hex_upper(b as nat, 8) + ")"@,
    }
}

/// Append [`jump_reason_ui`] of `v`.
pub fn push_jump_reason_name(out: &mut String, v: JumpReason)
    ensures
        final(out)@ == old(out)@ + jump_reason_ui(v),
{
    match v {
        JumpReason::PowerOn => out.append("powerOn"),
        JumpReason::CanTrigger => out.append("canTrigger"),
        JumpReason::Manual => out.append("manual"),
        JumpReason::Unknown(b) => {
            out.append("unknown(0x");
            push_hex_upper(out, b as u64, 8);
            out.append(")");
            assert(out@ =~= old(out)@ + jump_reason_ui(v));
        },
    }
}

/// [`jump_reason_ui`] as an owned string.
pub fn jump_reason_name(v: JumpReason) -> (s: String)
    ensures
        s@ == jump_reason_ui(v),
{
    let mut s = String::new();
    push_jump_reason_name(&mut s, v);
    s
}

/// UI name of an ECU FSM state.
pub open spec fn ecu_fsm_state_ui(v: EcuFsmState) -> Seq<char> {
    match v {
        EcuFsmState::WaitInvVdcConfig => "waitInvVdcConfig"@,
        EcuFsmState::Precharge => "precharge"@,
        EcuFsmState::WaitStartBrake => "waitStartBrake"@,
        EcuFsmState::R2dDelay => "r2dDelay"@,
        EcuFsmState::WaitInvStandby => "waitInvStandby"@,
        EcuFsmState::Active => "active"@,
        EcuFsmState::AmsError => "amsError"@,
        EcuFsmState::Unknown(b) => "unknown(0x"@ + hex_upper(b as nat, 2) + ")"@,
    }
}

/// Append [`ecu_fsm_state_ui`] of `v`.
pub fn push_ecu_fsm_state_name(out: &mut String, v: EcuFsmState)
    ensures
        final(out)@ == old(out)@ + ecu_fsm_state_ui(v),
{
    match v {
        EcuFsmState::WaitInvVdcConfig => out.append("waitInvVdcConfig"),
        EcuFsmState::Precharge => out.append("precharge"),
        EcuFsmState::WaitStartBrake => out.append("waitStartBrake"),
        EcuFsmState::R2dDelay => out.append("r2dDelay"),
        EcuFsmState::WaitInvStandby => out.append("waitInvStandby"),
        EcuFsmState::Active => out.append("active"),
        EcuFsmState::AmsError => out.append("amsError"),
        EcuFsmState::Unknown(b) => {
            out.append("unknown(0x");
            push_hex_upper(out, b as u64, 2);
            out.append(")");
            assert(out@ =~= old(out)@ + ecu_fsm_state_ui(v));
        },
    }
}

/// [`ecu_fsm_state_ui`] as an owned string.
pub fn ecu_fsm_state_name(v: EcuFsmState) -> (s: String)
    ensures
        s@ == ecu_fsm_state_ui(v),
{
    let mut s = String::new();
    push_ecu_fsm_state_name(&mut s, v);
    s
}

/// UI name of an inverter state.
pub open spec fn ecu_inv_state_ui(v: EcuInvState) -> Seq<char> {
    match v {
        EcuInvState::Standby => "standby"@,
        EcuInvState::Ready => "ready"@,
        EcuInvState::Unknown(b) => "unknown(0x"@ + hex_upper(b as nat, 2) + ")"@,
    }
}

/// Append [`ecu_inv_state_ui`] of `v`.
pub fn push_ecu_inv_state_name(out: &mut String, v: EcuInvState)
    ensures
        final(out)@ == old(out)@ + ecu_inv_state_ui(v),
{
    match v {
        EcuInvState::Standby => out.append("standby"),
        EcuInvState::Ready => out.append("ready"),
        EcuInvState::Unknown(b) => {
            out.append("unknown(0x");
            push_hex_upper(out, b as u64, 2);
            out.append(")");
            assert(out@ =~= old(out)@ + ecu_inv_state_ui(v));
        },
    }
}

/// [`ecu_inv_state_ui`] as an owned string.
pub fn ecu_inv_state_name(v: EcuInvState) -> (s: String)
    ensures
        s@ == ecu_inv_state_ui(v),
{
    let mut s = String::new();
    push_ecu_inv_state_name(&mut s, v);
    s
}

/// UI name of a reset cause.
pub open spec fn ecu_reset_cause_ui(v: EcuResetCause) -> Seq<char> {
    match v {
        EcuResetCause::Unknown => "unknown"@,
        EcuResetCause::PowerOn => "powerOn"@,
        EcuResetCause::Pin => "pin"@,
        EcuResetCause::Software => "software"@,
        EcuResetCause::Iwdg => "iwdg"@,
        EcuResetCause::Wwdg => "wwdg"@,
        EcuResetCause::LowPower => "lowPower"@,
        EcuResetCause::Other(b) => "other(0x"@ + hex_upper(b as nat, 2) + ")"@,
    }
}

/// Append [`ecu_reset_cause_ui`] of `v`.
pub fn push_ecu_reset_cause_name(out: &mut String, v: EcuResetCause)
    ensures
        final(out)@ == old(out)@ + ecu_reset_cause_ui(v),
{
    match v {
        EcuResetCause::Unknown => out.append("unknown"),
        EcuResetCause::PowerOn => out.append("powerOn"),
        EcuResetCause::Pin => out.append("pin"),
        EcuResetCause::Software => out.append("software"),
        EcuResetCause::Iwdg => out.append("iwdg"),
        EcuResetCause::Wwdg => out.append("wwdg"),
        EcuResetCause::LowPower => out.append("lowPower"),
        EcuResetCause::Other(b) => {
            out.append("other(0x");
            push_hex_upper(out, b as u64, 2);
            out.append(")");
            assert(out@ =~= old(out)@ + ecu_reset_cause_ui(v));
        },
    }
}

/// [`ecu_reset_cause_ui`] as an owned string.
pub fn ecu_reset_cause_name(v: EcuResetCause) -> (s: String)
    ensures
        s@ == ecu_reset_cause_ui(v),
{
    let mut s = String::new();
    push_ecu_reset_cause_name(&mut s, v);
    s
}

/// UI name of the ECU last-fault sentinel (`0x704` byte 7): the firmware
/// fault codes `0xF1..=0xF7`, `none` for zero.
pub open spec fn ecu_last_fault_ui(code: u8) -> Seq<char> {
    match code {
        0x00 => "none"@,
        0xF1 => "hardFault"@,
        0xF2 => "memManage"@,
        0xF3 => "busFault"@,
        0xF4 => "usageFault"@,
        0xF5 => "stackOverflow"@,
        0xF6 => "mallocFailed"@,
        0xF7 => "assertFailed"@,
        _ => "unknown(0x"@ + hex_upper(code as nat, 2) + ")"@,
    }
}

/// [`ecu_last_fault_ui`] as an owned string.
pub fn ecu_last_fault_name(code: u8) -> (s: String)
    ensures
        s@ == ecu_last_fault_ui(code),
{
    let mut s = String::new();
    match code {
        0x00 => s.append("none"),
        0xF1 => s.append("hardFault"),
        0xF2 => s.append("memManage"),
        0xF3 => s.append("busFault"),
        0xF4 => s.append("usageFault"),
        0xF5 => s.append("stackOverflow"),
        0xF6 => s.append("mallocFailed"),
        0xF7 => s.append("assertFailed"),
        _ => {
            s.append("unknown(0x");
            push_hex_upper(&mut s, code as u64, 2);
            s.append(")");
            assert(s@ =~= ecu_last_fault_ui(code));
        },
    }
    s
}

/// The hex of two different values differs.
proof fn lemma_hex_injective(a: nat, b: nat, w: nat)
    requires
        hex_upper(a, w) == hex_upper(b, w),
    ensures
        a == b,
{
    crate::cli::candump_laws::lemma_parse_padded(a, 16, a + b, w);
    crate::cli::candump_laws::lemma_parse_padded(b, 16, a + b, w);
}

/// Names of the form `PREFIX` + hex + `)` are equal only for equal values.
proof fn lemma_wrapped_hex_injective(p: Seq<char>, a: nat, b: nat, w: nat)
    requires
        p + hex_upper(a, w) + ")"@ == p + hex_upper(b, w) + ")"@,
    ensures
        a == b,
{
    reveal_strlit(")");
    let x = p + hex_upper(a, w) + ")"@;
    let y = p + hex_upper(b, w) + ")"@;
    assert(x.len() == y.len());
    assert(hex_upper(a, w) =~= x.subrange(p.len() as int, x.len() - 1));
    assert(hex_upper(b, w) =~= y.subrange(p.len() as int, y.len() - 1));
    lemma_hex_injective(a, b, w);
}

/// The front-end switches on FSM-state names: distinct values have distinct names.
pub proof fn lemma_fsm_state_ui_distinct(a: FsmState, b: FsmState)
    ensures
        fsm_state_ui(a) == fsm_state_ui(b) ==> a == b,
{
    reveal_strlit("start");
    reveal_strlit("precharge");
    reveal_strlit("transition");
    reveal_strlit("run");
    reveal_strlit("charge");
    reveal_strlit("error");
    reveal_strlit("unknown(0x");
    reveal_strlit(")");
    if fsm_state_ui(a) == fsm_state_ui(b) {
        match (a, b) {
            (FsmState::Unknown(x), FsmState::Unknown(y)) => {
                lemma_wrapped_hex_injective("unknown(0x"@, x as nat, y as nat, 2);
            },
            _ => {
                assert(fsm_state_ui(a).len() == fsm_state_ui(b).len());
                assert(fsm_state_ui(a)[0] == fsm_state_ui(b)[0]);
                assert(fsm_state_ui(a)[1] == fsm_state_ui(b)[1]);
                assert(fsm_state_ui(a)[2] == fsm_state_ui(b)[2]);
                assert(fsm_state_ui(a)[3] == fsm_state_ui(b)[3]);
                assert(fsm_state_ui(a)[4] == fsm_state_ui(b)[4]);
                assert(fsm_state_ui(a)[5] == fsm_state_ui(b)[5]);
            },
        }
    }
}

/// The front-end switches on mode-lock names: distinct values have distinct names.
pub proof fn lemma_mode_lock_ui_distinct(a: ModeLock, b: ModeLock)
    ensures
        mode_lock_ui(a) == mode_lock_ui(b) ==> a == b,
{
    reveal_strlit("undecided");
    reveal_strlit("car");
    reveal_strlit("charger");
    reveal_strlit("unknown(0x");
    reveal_strlit(")");
    if mode_lock_ui(a) == mode_lock_ui(b) {
        match (a, b) {
            (ModeLock::Unknown(x), ModeLock::Unknown(y)) => {
                lemma_wrapped_hex_injective("unknown(0x"@, x as nat, y as nat, 2);
            },
            _ => {
                assert(mode_lock_ui(a).len() == mode_lock_ui(b).len());
                assert(mode_lock_ui(a)[0] == mode_lock_ui(b)[0]);
                assert(mode_lock_ui(a)[1] == mode_lock_ui(b)[1]);
                assert(mode_lock_ui(a)[2] == mode_lock_ui(b)[2]);
                assert(mode_lock_ui(a)[3] == mode_lock_ui(b)[3]);
                assert(mode_lock_ui(a)[4] == mode_lock_ui(b)[4]);
                assert(mode_lock_ui(a)[5] == mode_lock_ui(b)[5]);
            },
        }
    }
}

/// The front-end switches on fault-reason names: distinct values have distinct names.
pub proof fn lemma_fault_reason_ui_distinct(a: FaultReason, b: FaultReason)
    ensures
        fault_reason_ui(a) == fault_reason_ui(b) ==> a == b,
{
    reveal_strlit("none");
    reveal_strlit("forceError");
    reveal_strlit("bmsModuleOffline");
    reveal_strlit("bmsStale");
    reveal_strlit("cellUnderVoltage");
    reveal_strlit("cellOverVoltage");
    reveal_strlit("cellUnderTemp");
    reveal_strlit("cellOverTemp");
    reveal_strlit("currentSensorFault");
    reveal_strlit("currentStale");
    reveal_strlit("currentOverLimit");
    reveal_strlit("vcuStale");
    reveal_strlit("fsmError");
    reveal_strlit("unknown(0x");
    reveal_strlit(")");
    if fault_reason_ui(a) == fault_reason_ui(b) {
        match (a, b) {
            (FaultReason::Unknown(x), FaultReason::Unknown(y)) => {
                lemma_wrapped_hex_injective("unknown(0x"@, x as nat, y as nat, 2);
            },
            _ => {
                assert(fault_reason_ui(a).len() == fault_reason_ui(b).len());
                assert(fault_reason_ui(a)[0] == fault_reason_ui(b)[0]);
                assert(fault_reason_ui(a)[1] == fault_reason_ui(b)[1]);
                assert(fault_reason_ui(a)[2] == fault_reason_ui(b)[2]);
                assert(fault_reason_ui(a)[3] == fault_reason_ui(b)[3]);
                assert(fault_reason_ui(a)[4] == fault_reason_ui(b)[4]);
                assert(fault_reason_ui(a)[5] == fault_reason_ui(b)[5]);
            },
        }
    }
}

/// The front-end switches on jump-reason names: distinct values have distinct names.
pub proof fn lemma_jump_reason_ui_distinct(a: JumpReason, b: JumpReason)
    ensures
        jump_reason_ui(a) == jump_reason_ui(b) ==> a == b,
{
    reveal_strlit("powerOn");
    reveal_strlit("canTrigger");
    reveal_strlit("manual");
    reveal_strlit("unknown(0x");
    reveal_strlit(")");
    if jump_reason_ui(a) == jump_reason_ui(b) {
        match (a, b) {
            (JumpReason::Unknown(x), JumpReason::Unknown(y)) => {
                lemma_wrapped_hex_injective("unknown(0x"@, x as nat, y as nat, 8);
            },
            _ => {
                assert(jump_reason_ui(a).len() == jump_reason_ui(b).len());
                assert(jump_reason_ui(a)[0] == jump_reason_ui(b)[0]);
                assert(jump_reason_ui(a)[1] == jump_reason_ui(b)[1]);
                assert(jump_reason_ui(a)[2] == jump_reason_ui(b)[2]);
                assert(jump_reason_ui(a)[3] == jump_reason_ui(b)[3]);
                assert(jump_reason_ui(a)[4] == jump_reason_ui(b)[4]);
                assert(jump_reason_ui(a)[5] == jump_reason_ui(b)[5]);
            },
        }
    }
}

/// The front-end switches on ECU FSM-state names: distinct values have distinct names.
pub proof fn lemma_ecu_fsm_state_ui_distinct(a: EcuFsmState, b: EcuFsmState)
    ensures
        ecu_fsm_state_ui(a) == ecu_fsm_state_ui(b) ==> a == b,
{
    reveal_strlit("waitInvVdcConfig");
    reveal_strlit("precharge");
    reveal_strlit("waitStartBrake");
    reveal_strlit("r2dDelay");
    reveal_strlit("waitInvStandby");
    reveal_strlit("active");
    reveal_strlit("amsError");
    reveal_strlit("unknown(0x");
    reveal_strlit(")");
    if ecu_fsm_state_ui(a) == ecu_fsm_state_ui(b) {
        match (a, b) {
            (EcuFsmState::Unknown(x), EcuFsmState::Unknown(y)) => {
                lemma_wrapped_hex_injective("unknown(0x"@, x as nat, y as nat, 2);
            },
            _ => {
                assert(ecu_fsm_state_ui(a).len() == ecu_fsm_state_ui(b).len());
                assert(ecu_fsm_state_ui(a)[0] == ecu_fsm_state_ui(b)[0]);
                assert(ecu_fsm_state_ui(a)[1] == ecu_fsm_state_ui(b)[1]);
                assert(ecu_fsm_state_ui(a)[2] == ecu_fsm_state_ui(b)[2]);
                assert(ecu_fsm_state_ui(a)[3] == ecu_fsm_state_ui(b)[3]);
                assert(ecu_fsm_state_ui(a)[4] == ecu_fsm_state_ui(b)[4]);
                assert(ecu_fsm_state_ui(a)[5] == ecu_fsm_state_ui(b)[5]);
            },
        }
    }
}

/// The front-end switches on inverter-state names: distinct values have distinct names.
pub proof fn lemma_ecu_inv_state_ui_distinct(a: EcuInvState, b: EcuInvState)
    ensures
        ecu_inv_state_ui(a) == ecu_inv_state_ui(b) ==> a == b,
{
    reveal_strlit("standby");
    reveal_strlit("ready");
    reveal_strlit("unknown(0x");
    reveal_strlit(")");
    if ecu_inv_state_ui(a) == ecu_inv_state_ui(b) {
        match (a, b) {
            (EcuInvState::Unknown(x), EcuInvState::Unknown(y)) => {
                lemma_wrapped_hex_injective("unknown(0x"@, x as nat, y as nat, 2);
            },
            _ => {
                assert(ecu_inv_state_ui(a).len() == ecu_inv_state_ui(b).len());
                assert(ecu_inv_state_ui(a)[0] == ecu_inv_state_ui(b)[0]);
                assert(ecu_inv_state_ui(a)[1] == ecu_inv_state_ui(b)[1]);
                assert(ecu_inv_state_ui(a)[2] == ecu_inv_state_ui(b)[2]);
                assert(ecu_inv_state_ui(a)[3] == ecu_inv_state_ui(b)[3]);
                assert(ecu_inv_state_ui(a)[4] == ecu_inv_state_ui(b)[4]);
                assert(ecu_inv_state_ui(a)[5] == ecu_inv_state_ui(b)[5]);
            },
        }
    }
}

/// The front-end switches on reset-cause names: distinct values have distinct names.
pub proof fn lemma_ecu_reset_cause_ui_distinct(a: EcuResetCause, b: EcuResetCause)
    ensures
        ecu_reset_cause_ui(a) == ecu_reset_cause_ui(b) ==> a == b,
{
    reveal_strlit("unknown");
    reveal_strlit("powerOn");
    reveal_strlit("pin");
    reveal_strlit("software");
    reveal_strlit("iwdg");
    reveal_strlit("wwdg");
    reveal_strlit("lowPower");
    reveal_strlit("other(0x");
    reveal_strlit(")");
    if ecu_reset_cause_ui(a) == ecu_reset_cause_ui(b) {
        match (a, b) {
            (EcuResetCause::Other(x), EcuResetCause::Other(y)) => {
                lemma_wrapped_hex_injective("other(0x"@, x as nat, y as nat, 2);
            },
            _ => {
                assert(ecu_reset_cause_ui(a).len() == ecu_reset_cause_ui(b).len());
                assert(ecu_reset_cause_ui(a)[0] == ecu_reset_cause_ui(b)[0]);
                assert(ecu_reset_cause_ui(a)[1] == ecu_reset_cause_ui(b)[1]);
                assert(ecu_reset_cause_ui(a)[2] == ecu_reset_cause_ui(b)[2]);
                assert(ecu_reset_cause_ui(a)[3] == ecu_reset_cause_ui(b)[3]);
                assert(ecu_reset_cause_ui(a)[4] == ecu_reset_cause_ui(b)[4]);
                assert(ecu_reset_cause_ui(a)[5] == ecu_reset_cause_ui(b)[5]);
            },
        }
    }
}

/// The front-end switches on last-fault names: distinct codes have distinct names.
pub proof fn lemma_ecu_last_fault_ui_distinct(a: u8, b: u8)
    ensures
        ecu_last_fault_ui(a) == ecu_last_fault_ui(b) ==> a == b,
{
    reveal_strlit("none");
    reveal_strlit("hardFault");
    reveal_strlit("memManage");
    reveal_strlit("busFault");
    reveal_strlit("usageFault");
    reveal_strlit("stackOverflow");
    reveal_strlit("mallocFailed");
    reveal_strlit("assertFailed");
    reveal_strlit("unknown(0x");
    reveal_strlit(")");
    let known_a = a == 0 || (0xF1 <= a && a <= 0xF7);
    let known_b = b == 0 || (0xF1 <= b && b <= 0xF7);
    if ecu_last_fault_ui(a) == ecu_last_fault_ui(b) {
        if !known_a && !known_b {
            lemma_wrapped_hex_injective("unknown(0x"@, a as nat, b as nat, 2);
        } else {
            assert(ecu_last_fault_ui(a).len() == ecu_last_fault_ui(b).len());
            assert(ecu_last_fault_ui(a)[0] == ecu_last_fault_ui(b)[0]);
            assert(ecu_last_fault_ui(a)[1] == ecu_last_fault_ui(b)[1]);
            assert(ecu_last_fault_ui(a)[2] == ecu_last_fault_ui(b)[2]);
            assert(ecu_last_fault_ui(a)[3] == ecu_last_fault_ui(b)[3]);
            assert(ecu_last_fault_ui(a)[4] == ecu_last_fault_ui(b)[4]);
            assert(ecu_last_fault_ui(a)[5] == ecu_last_fault_ui(b)[5]);
        }
    }
}

} // verus!
