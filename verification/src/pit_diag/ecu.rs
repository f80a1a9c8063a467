//! ECU (VCU) pit-diag observer protocol: a separate, smaller stream than
//! the AMS one. Armed with `0x7E0` / `DE AD BE EF`, ACKed on `0x7E1`; the
//! stream frames are `0x700..=0x707` (status, pedals, inverter, firmware
//! info, health, brake, inverter temperatures, DV view). Multi-byte
//! numeric fields are big-endian except the DV frame's mechanical RPM.
//! No ID overlaps the AMS stream, so the two decoders are independent.
use vstd::prelude::*;
use crate::bytes::{as_i16, as_i32, be16, be16_of, be32, be32_of, i16_of, i32_of, le16, le16_of};
use crate::protocol::CanFrame;

verus! {

/// CAN ID the ECU listens on for arm/disarm commands.
pub const ECU_ARM_ID: u16 = 0x7E0;
/// CAN ID the ECU uses to ACK arm/disarm commands.
pub const ECU_ACK_ID: u16 = 0x7E1;
/// Arm payload — big-endian magic `0xDEADBEEF`.
pub const ECU_ARM_ENABLE_PAYLOAD: [u8; 4] = [0xDE, 0xAD, 0xBE, 0xEF];
/// Disarm payload — all zeros.
pub const ECU_ARM_DISABLE_PAYLOAD: [u8; 4] = [0x00, 0x00, 0x00, 0x00];
/// `0x700` — FSM / inverter state + control flags + torque + min cell-V.
pub const ECU_STATUS_ID: u16 = 0x700;
/// `0x701` — APPS pedal channels + brake raw ADC.
pub const ECU_PEDALS_ID: u16 = 0x701;
/// `0x702` — inverter DC-bus voltage, RPM (signed), error code.
pub const ECU_INVERTER_ID: u16 = 0x702;
/// `0x703` — firmware semver + git-hash prefix.
pub const ECU_FWINFO_ID: u16 = 0x703;
/// `0x705` — physical brake pressure + brake %.
pub const ECU_BRAKE_ID: u16 = 0x705;
/// `0x706` — inverter temperatures.
pub const ECU_INVERTER_TEMPS_ID: u16 = 0x706;
/// `0x704` — firmware health (1 Hz).
pub const ECU_HEALTH_ID: u16 = 0x704;
/// `0x707` — the ECU's view of the DV (driverless) integration.
pub const ECU_DV_ID: u16 = 0x707;
/// Inverter temperature sentinel: raw `0xFF` (= 205 °C after the −50
/// offset) means the sensor is disconnected.
pub const ECU_INV_TEMP_DISCONNECTED_C: i16 = 205;
/// Cyclic (100 ms) frames per scan; the 1 Hz health frame is not counted.
pub const ECU_EXPECTED_FRAMES_PER_SCAN: usize = 7;

/// Vehicle-control FSM state (`0x700` byte 0).
#[derive(Clone, Copy, Debug, PartialEq, Eq, Structural)]
pub enum EcuFsmState {
    WaitInvVdcConfig,
    Precharge,
    WaitStartBrake,
    R2dDelay,
    WaitInvStandby,
    Active,
    AmsError,
    Unknown(u8),
}

impl EcuFsmState {
    /// Decode the raw state byte.
    #[verifier::allow_in_spec]
    pub fn from_byte(b: u8) -> Self
        returns
            (match b {
                0 => EcuFsmState::WaitInvVdcConfig,
                1 => EcuFsmState::Precharge,
                2 => EcuFsmState::WaitStartBrake,
                3 => EcuFsmState::R2dDelay,
                4 => EcuFsmState::WaitInvStandby,
                5 => EcuFsmState::Active,
                6 => EcuFsmState::AmsError,
                _ => EcuFsmState::Unknown(b),
            }),
    {
        match b {
            0 => EcuFsmState::WaitInvVdcConfig,
            1 => EcuFsmState::Precharge,
            2 => EcuFsmState::WaitStartBrake,
            3 => EcuFsmState::R2dDelay,
            4 => EcuFsmState::WaitInvStandby,
            5 => EcuFsmState::Active,
            6 => EcuFsmState::AmsError,
            other => EcuFsmState::Unknown(other),
        }
    }
}

/// Inverter application state (`0x700` byte 1).
#[derive(Clone, Copy, Debug, PartialEq, Eq, Structural)]
pub enum EcuInvState {
    /// 3 — inverter standby.
    Standby,
    /// 4 — inverter ready.
    Ready,
    Unknown(u8),
}

impl EcuInvState {
    /// Decode the raw inverter-state byte.
    #[verifier::allow_in_spec]
    pub fn from_byte(b: u8) -> Self
        returns
            (match b {
                3 => EcuInvState::Standby,
                4 => EcuInvState::Ready,
                _ => EcuInvState::Unknown(b),
            }),
    {
        match b {
            3 => EcuInvState::Standby,
            4 => EcuInvState::Ready,
            other => EcuInvState::Unknown(other),
        }
    }
}

/// MCU reset cause (`0x704` byte 5).
#[derive(Clone, Copy, Debug, PartialEq, Eq, Structural)]
pub enum EcuResetCause {
    /// 0 — cause not determined.
    Unknown,
    PowerOn,
    Pin,
    Software,
    Iwdg,
    Wwdg,
    LowPower,
    Other(u8),
}

impl EcuResetCause {
    /// Decode the raw reset-cause byte.
    #[verifier::allow_in_spec]
    pub fn from_byte(b: u8) -> Self
        returns
            (match b {
                0 => EcuResetCause::Unknown,
                1 => EcuResetCause::PowerOn,
                2 => EcuResetCause::Pin,
                3 => EcuResetCause::Software,
                4 => EcuResetCause::Iwdg,
                5 => EcuResetCause::Wwdg,
                6 => EcuResetCause::LowPower,
                _ => EcuResetCause::Other(b),
            }),
    {
        match b {
            0 => EcuResetCause::Unknown,
            1 => EcuResetCause::PowerOn,
            2 => EcuResetCause::Pin,
            3 => EcuResetCause::Software,
            4 => EcuResetCause::Iwdg,
            5 => EcuResetCause::Wwdg,
            6 => EcuResetCause::LowPower,
            other => EcuResetCause::Other(other),
        }
    }
}

/// Names of the inverter DEM fault table, codes 0..=15.
pub open spec fn dem_fault_text(code: u8) -> Seq<char> {
    match code {
        0 => "NoFault"@,
        1 => "LostMsg"@,
        2 => "Undervoltage"@,
        3 => "PwrStgOvertemp"@,
        4 => "PwrStgTempDegradation"@,
        5 => "EMCtrFault"@,
        6 => "TaskOverrun"@,
        7 => "CAN1_BusOff"@,
        8 => "EmachineOvertemp"@,
        9 => "PhaseCurrentSensorRange"@,
        10 => "PwrStgTempSensorRange"@,
        11 => "DCBusVoltageSensorRange"@,
        12 => "DPBoardOvertemp"@,
        13 => "DRVBoardOvertemp"@,
        14 => "AuxSupplyRange"@,
        15 => "EmachineOverspeed"@,
        _ => "unknown"@,
    }
}

/// The DEM fault table names each of the codes 0..=15 distinctly, and
/// only codes past the table are named `unknown`.
pub proof fn lemma_dem_fault_names_distinct(a: u8, b: u8)
    ensures
        a <= 15 && b <= 15 && dem_fault_text(a) == dem_fault_text(b) ==> a == b,
        dem_fault_text(a) == "unknown"@ <==> a > 15,
{
    reveal_strlit("NoFault");
    reveal_strlit("LostMsg");
    reveal_strlit("Undervoltage");
    reveal_strlit("PwrStgOvertemp");
    reveal_strlit("PwrStgTempDegradation");
    reveal_strlit("EMCtrFault");
    reveal_strlit("TaskOverrun");
    reveal_strlit("CAN1_BusOff");
    reveal_strlit("EmachineOvertemp");
    reveal_strlit("PhaseCurrentSensorRange");
    reveal_strlit("PwrStgTempSensorRange");
    reveal_strlit("DCBusVoltageSensorRange");
    reveal_strlit("DPBoardOvertemp");
    reveal_strlit("DRVBoardOvertemp");
    reveal_strlit("AuxSupplyRange");
    reveal_strlit("EmachineOverspeed");
    reveal_strlit("unknown");
    let ta = dem_fault_text(a);
    let tb = dem_fault_text(b);
    let u = "unknown"@;
    if ta == tb {
        assert(ta.len() == tb.len());
        assert(ta[0] == tb[0]);
        assert(ta[1] == tb[1]);
        if ta.len() > 10 {
            assert(ta[10] == tb[10]);
        }
    }
    if ta == u {
        assert(ta.len() == u.len());
        assert(ta[0] == u[0]);
    }
}

/// Name for an inverter DEM fault code (`0x702` `inv_error`); codes
/// outside `0..=15` give `"unknown"`.
pub fn dem_fault_name(code: u8) -> (s: &'static str)
    ensures
        s@ == dem_fault_text(code),
{
    match code {
        0 => "NoFault",
        1 => "LostMsg",
        2 => "Undervoltage",
        3 => "PwrStgOvertemp",
        4 => "PwrStgTempDegradation",
        5 => "EMCtrFault",
        6 => "TaskOverrun",
        7 => "CAN1_BusOff",
        8 => "EmachineOvertemp",
        9 => "PhaseCurrentSensorRange",
        10 => "PwrStgTempSensorRange",
        11 => "DCBusVoltageSensorRange",
        12 => "DPBoardOvertemp",
        13 => "DRVBoardOvertemp",
        14 => "AuxSupplyRange",
        15 => "EmachineOverspeed",
        _ => "unknown",
    }
}

/// `0x700` — FSM / inverter state, cockpit flags, torque, min cell voltage.
#[derive(Clone, Copy, Debug, PartialEq, Eq, Structural)]
pub struct EcuStatusFrame {
    pub fsm_state: EcuFsmState,
    pub inv_state: EcuInvState,
    /// Byte 2 bit 0 — EV 2.3 plausibility OK.
    pub ev_2_3: bool,
    /// Byte 2 bit 1 — T11.8/9 plausibility OK.
    pub t11_8_9: bool,
    /// Byte 2 bit 2 — ready-to-drive sound active.
    pub rtds_active: bool,
    /// Byte 2 bit 3 — precharge complete.
    pub ok_precharge: bool,
    /// Byte 2 bit 4 — start button pressed.
    pub start_button: bool,
    /// Byte 2 bit 5 — DV drive latched this cycle.
    pub dv_mode: bool,
    pub torque_pct: u8,
    pub v_cell_min_mv: u16,
    pub torque_cmd: i16,
}

/// `0x701` — the two APPS pedal channels plus the raw brake ADC.
#[derive(Clone, Copy, Debug, PartialEq, Eq, Structural)]
pub struct EcuPedalsFrame {
    pub apps1_raw: u16,
    pub apps2_raw: u16,
    pub brake_raw: u16,
    pub apps1_pct: u8,
    pub apps2_pct: u8,
}

/// `0x705` — physical brake values.
#[derive(Clone, Copy, Debug, PartialEq, Eq, Structural)]
pub struct EcuBrakeFrame {
    /// Brake pressure in deci-bar.
    pub brake_pressure_dbar: u16,
    pub brake_pct: u8,
}

/// `0x702` — inverter DC-bus voltage, motor RPM and error code.
#[derive(Clone, Copy, Debug, PartialEq, Eq, Structural)]
pub struct EcuInverterFrame {
    pub dc_bus_voltage: u16,
    /// Motor speed, RPM — signed.
    pub inv_rpm: i32,
    /// Inverter DEM fault code — name via [`dem_fault_name`].
    pub inv_error: u8,
    /// Byte 7 bit 0: the fault is active now (`false` on a 7-byte frame).
    pub dem_present: bool,
}

/// `0x703` — firmware semantic version + git-hash prefix.
#[derive(Clone, Copy, Debug, PartialEq, Eq)]
pub struct EcuFwInfoFrame {
    pub fw_major: u8,
    pub fw_minor: u8,
    pub fw_patch: u8,
    pub git_hash: [u8; 4],
}

/// `0x706` — inverter temperatures, `°C = raw − 50`.
#[derive(Clone, Copy, Debug, PartialEq, Eq, Structural)]
pub struct EcuInverterTempsFrame {
    pub board_degc: i16,
    pub pwrstg_degc: i16,
    pub motor1_degc: i16,
    pub motor2_degc: i16,
}

/// `0x704` — firmware-health telemetry.
#[derive(Clone, Copy, Debug, PartialEq, Eq, Structural)]
pub struct EcuHealthFrame {
    pub free_heap: u16,
    pub min_free_heap: u16,
    pub task_control: bool,
    pub task_can_rx: bool,
    pub task_can_tx: bool,
    pub task_diag: bool,
    pub reset_cause: EcuResetCause,
    /// Seconds since boot (wraps at 255).
    pub uptime_s: u8,
    /// Sticky last-fault sentinel (`0x00` = none).
    pub last_fault: u8,
}

/// `0x707` — the ECU's view of the DV integration.
#[derive(Clone, Copy, Debug, PartialEq, Eq, Structural)]
pub struct EcuDvFrame {
    pub dv_r2d_req: bool,
    pub dv_cmd_fresh: bool,
    pub ts_active: bool,
    pub brake_over_limit: bool,
    pub r2d_confirm: bool,
    pub dv_torque_pct: u8,
    /// Mechanical rpm (signed, little-endian).
    pub motor_rpm_mech: i16,
}

/// A decoded ECU pit-diag frame.
#[derive(Clone, Copy, Debug, PartialEq, Eq)]
pub enum EcuPitDiagFrame {
    Ack { enabled: bool },
    Status(EcuStatusFrame),
    Pedals(EcuPedalsFrame),
    Brake(EcuBrakeFrame),
    Inverter(EcuInverterFrame),
    InverterTemps(EcuInverterTempsFrame),
    FwInfo(EcuFwInfoFrame),
    Health(EcuHealthFrame),
    Dv(EcuDvFrame),
}

/// Build the frame that arms (or disarms) the ECU pit-diag stream.
pub fn build_arm_frame(enable: bool) -> (f: CanFrame)
    ensures
        f.wf(),
        f.id == ECU_ARM_ID,
        f.payload_view() == super::arm_payload(enable),
{
    let payload = if enable {
        ECU_ARM_ENABLE_PAYLOAD
    } else {
        ECU_ARM_DISABLE_PAYLOAD
    };
    assert(payload@ == super::arm_payload(enable));
    match CanFrame::new(ECU_ARM_ID, payload.as_slice()) {
        Ok(f) => f,
        Err(_) => {
            assert(false);
            CanFrame { id: ECU_ARM_ID, len: 0, data: [0u8; 8] }
        },
    }
}

/// `°C = raw − 50` for one inverter temperature byte.
pub open spec fn inv_temp(raw: u8) -> i16 {
    (raw as int - 50) as i16
}

/// The id carries an ECU stream frame (not the ACK).
pub open spec fn is_stream_id(id: u16) -> bool {
    ECU_STATUS_ID <= id <= ECU_DV_ID
}

/// What [`decode_frame`] yields for identifier `id` and payload `p`.
pub open spec fn decode_spec(id: u16, p: Seq<u8>) -> Option<EcuPitDiagFrame> {
    if id == ECU_ACK_ID {
        Some(EcuPitDiagFrame::Ack { enabled: p.len() > 0 && p[0] == 1 })
    } else if id == ECU_STATUS_ID {
        if p.len() < 8 {
            None
        } else {
            Some(EcuPitDiagFrame::Status(EcuStatusFrame {
                fsm_state: EcuFsmState::from_byte(p[0]),
                inv_state: EcuInvState::from_byte(p[1]),
                ev_2_3: p[2] & 0x01 != 0,
                t11_8_9: p[2] & 0x02 != 0,
                rtds_active: p[2] & 0x04 != 0,
                ok_precharge: p[2] & 0x08 != 0,
                start_button: p[2] & 0x10 != 0,
                dv_mode: p[2] & 0x20 != 0,
                torque_pct: p[3],
                v_cell_min_mv: be16(p[4], p[5]),
                torque_cmd: as_i16(be16(p[6], p[7])),
            }))
        }
    } else if id == ECU_PEDALS_ID {
        if p.len() < 8 {
            None
        } else {
            Some(EcuPitDiagFrame::Pedals(EcuPedalsFrame {
                apps1_raw: be16(p[0], p[1]),
                apps2_raw: be16(p[2], p[3]),
                brake_raw: be16(p[4], p[5]),
                apps1_pct: p[6],
                apps2_pct: p[7],
            }))
        }
    } else if id == ECU_BRAKE_ID {
        if p.len() < 3 {
            None
        } else {
            Some(EcuPitDiagFrame::Brake(EcuBrakeFrame {
                brake_pressure_dbar: be16(p[0], p[1]),
                brake_pct: p[2],
            }))
        }
    } else if id == ECU_INVERTER_ID {
        if p.len() < 7 {
            None
        } else {
            Some(EcuPitDiagFrame::Inverter(EcuInverterFrame {
                dc_bus_voltage: be16(p[0], p[1]),
                inv_rpm: as_i32(be32(p[2], p[3], p[4], p[5])),
                inv_error: p[6],
                dem_present: p.len() > 7 && p[7] & 0x01 != 0,
            }))
        }
    } else if id == ECU_FWINFO_ID {
        if p.len() < 7 {
            None
        } else {
            Some(EcuPitDiagFrame::FwInfo(EcuFwInfoFrame {
                fw_major: p[0],
                fw_minor: p[1],
                fw_patch: p[2],
                git_hash: [p[3], p[4], p[5], p[6]],
            }))
        }
    } else if id == ECU_INVERTER_TEMPS_ID {
        if p.len() < 4 {
            None
        } else {
            Some(EcuPitDiagFrame::InverterTemps(EcuInverterTempsFrame {
                board_degc: inv_temp(p[0]),
                pwrstg_degc: inv_temp(p[1]),
                motor1_degc: inv_temp(p[2]),
                motor2_degc: inv_temp(p[3]),
            }))
        }
    } else if id == ECU_HEALTH_ID {
        if p.len() < 8 {
            None
        } else {
            Some(EcuPitDiagFrame::Health(EcuHealthFrame {
                free_heap: be16(p[0], p[1]),
                min_free_heap: be16(p[2], p[3]),
                task_control: p[4] & 0x01 != 0,
                task_can_rx: p[4] & 0x02 != 0,
                task_can_tx: p[4] & 0x04 != 0,
                task_diag: p[4] & 0x08 != 0,
                reset_cause: EcuResetCause::from_byte(p[5]),
                uptime_s: p[6],
                last_fault: p[7],
            }))
        }
    } else if id == ECU_DV_ID {
        if p.len() < 4 {
            None
        } else {
            Some(EcuPitDiagFrame::Dv(EcuDvFrame {
                dv_r2d_req: p[0] & 0x01 != 0,
                dv_cmd_fresh: p[0] & 0x02 != 0,
                ts_active: p[0] & 0x04 != 0,
                brake_over_limit: p[0] & 0x08 != 0,
                r2d_confirm: p[0] & 0x10 != 0,
                dv_torque_pct: p[1],
                motor_rpm_mech: as_i16(le16(p[2], p[3])),
            }))
        }
    } else {
        None
    }
}

/// Decode a raw CAN frame into an ECU pit-diag record; `None` when the ID
/// is not part of the ECU stream or the payload is too short.
pub fn decode_frame(frame: &CanFrame) -> (r: Option<EcuPitDiagFrame>)
    requires
        frame.wf(),
    ensures
        r == decode_spec(frame.id, frame.payload_view()),
{
    let id = frame.id;
    let p = frame.payload();
    let n = p.len();
    if id == ECU_ACK_ID {
        let enabled = n > 0 && p[0] == 0x01;
        Some(EcuPitDiagFrame::Ack { enabled })
    } else if id == ECU_STATUS_ID {
        if n < 8 {
            return None;
        }
        let flags = p[2];
        Some(EcuPitDiagFrame::Status(EcuStatusFrame {
            fsm_state: EcuFsmState::from_byte(p[0]),
            inv_state: EcuInvState::from_byte(p[1]),
            ev_2_3: (flags & 0x01) != 0,
            t11_8_9: (flags & 0x02) != 0,
            rtds_active: (flags & 0x04) != 0,
            ok_precharge: (flags & 0x08) != 0,
            start_button: (flags & 0x10) != 0,
            dv_mode: (flags & 0x20) != 0,
            torque_pct: p[3],
            v_cell_min_mv: be16_of(p[4], p[5]),
            torque_cmd: i16_of(be16_of(p[6], p[7])),
        }))
    } else if id == ECU_PEDALS_ID {
        if n < 8 {
            return None;
        }
        Some(EcuPitDiagFrame::Pedals(EcuPedalsFrame {
            apps1_raw: be16_of(p[0], p[1]),
            apps2_raw: be16_of(p[2], p[3]),
            brake_raw: be16_of(p[4], p[5]),
            apps1_pct: p[6],
            apps2_pct: p[7],
        }))
    } else if id == ECU_BRAKE_ID {
        if n < 3 {
            return None;
        }
        Some(EcuPitDiagFrame::Brake(EcuBrakeFrame {
            brake_pressure_dbar: be16_of(p[0], p[1]),
            brake_pct: p[2],
        }))
    } else if id == ECU_INVERTER_ID {
        if n < 7 {
            return None;
        }
        let dem_present = n > 7 && (p[7] & 0x01) != 0;
        Some(EcuPitDiagFrame::Inverter(EcuInverterFrame {
            dc_bus_voltage: be16_of(p[0], p[1]),
            inv_rpm: i32_of(be32_of(p[2], p[3], p[4], p[5])),
            inv_error: p[6],
            dem_present,
        }))
    } else if id == ECU_FWINFO_ID {
        if n < 7 {
            return None;
        }
        Some(EcuPitDiagFrame::FwInfo(EcuFwInfoFrame {
            fw_major: p[0],
            fw_minor: p[1],
            fw_patch: p[2],
            git_hash: [p[3], p[4], p[5], p[6]],
        }))
    } else if id == ECU_INVERTER_TEMPS_ID {
        if n < 4 {
            return None;
        }
        Some(EcuPitDiagFrame::InverterTemps(EcuInverterTempsFrame {
            board_degc: (p[0] as i16) - 50,
            pwrstg_degc: (p[1] as i16) - 50,
            motor1_degc: (p[2] as i16) - 50,
            motor2_degc: (p[3] as i16) - 50,
        }))
    } else if id == ECU_HEALTH_ID {
        if n < 8 {
            return None;
        }
        let live = p[4];
        Some(EcuPitDiagFrame::Health(EcuHealthFrame {
            free_heap: be16_of(p[0], p[1]),
            min_free_heap: be16_of(p[2], p[3]),
            task_control: (live & 0x01) != 0,
            task_can_rx: (live & 0x02) != 0,
            task_can_tx: (live & 0x04) != 0,
            task_diag: (live & 0x08) != 0,
            reset_cause: EcuResetCause::from_byte(p[5]),
            uptime_s: p[6],
            last_fault: p[7],
        }))
    } else if id == ECU_DV_ID {
        if n < 4 {
            return None;
        }
        let flags = p[0];
        Some(EcuPitDiagFrame::Dv(EcuDvFrame {
            dv_r2d_req: (flags & 0x01) != 0,
            dv_cmd_fresh: (flags & 0x02) != 0,
            ts_active: (flags & 0x04) != 0,
            brake_over_limit: (flags & 0x08) != 0,
            r2d_confirm: (flags & 0x10) != 0,
            dv_torque_pct: p[1],
            motor_rpm_mech: i16_of(le16_of(p[2], p[3])),
        }))
    } else {
        None
    }
}

} // verus!
