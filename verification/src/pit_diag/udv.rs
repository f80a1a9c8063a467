//! uDV (driverless) pit-diag observer protocol. Armed (sticky, no ACK, no
//! disarm) with `0x7DE` / `DE AD BE EF`; the stream frames `0x7A0..=0x7A6`
//! are eight bytes, little-endian. The `0x7DF` trigger starts or aborts
//! the steering end-stop calibration.
use vstd::prelude::*;
use crate::bytes::{as_i16, as_i8, i16_of, i8_of, le16, le16_of, le32, le32_of};
use crate::protocol::CanFrame;

verus! {

/// CAN ID the uDV listens on for the arm command.
pub const UDV_ARM_ID: u16 = 0x7DE;
/// Arm payload — big-endian magic `0xDEADBEEF`.
pub const UDV_ARM_ENABLE_PAYLOAD: [u8; 4] = [0xDE, 0xAD, 0xBE, 0xEF];
/// `0x7A0` — AS state, signal mask, mission, EBS-init, ASSI mode.
pub const UDV_STATUS_ID: u16 = 0x7A0;
/// `0x7A1` — RES status/bits, radio, frame age, steering.
pub const UDV_RES_ID: u16 = 0x7A1;
/// `0x7A2` — /dv pipe: status + control commands + ages + setup bits.
pub const UDV_PIPE_ID: u16 = 0x7A2;
/// `0x7A3` — firmware health.
pub const UDV_HEALTH_ID: u16 = 0x7A3;
/// `0x7A4` — firmware identity.
pub const UDV_FWINFO_ID: u16 = 0x7A4;
/// `0x7A5` — FDCAN1 protocol status + error counters.
pub const UDV_CANHEALTH_ID: u16 = 0x7A5;
/// `0x7A6` — steering end-stop calibration status.
pub const UDV_CALIB_ID: u16 = 0x7A6;
/// `0x7DF` — steering-calibration trigger (tool → uDV, DLC 1).
pub const UDV_CALIB_TRIGGER_ID: u16 = 0x7DF;
/// Trigger payload — start the calibration.
pub const UDV_CALIB_START: u8 = 0x01;
/// Trigger payload — abort a running calibration.
pub const UDV_CALIB_ABORT: u8 = 0x02;
/// Cyclic frames per scan (status / res / pipe / health / can-health).
pub const UDV_EXPECTED_FRAMES_PER_SCAN: usize = 5;
/// `res_age_ms` / `dv_age_ms` sentinel — never seen.
pub const UDV_AGE_NEVER: u16 = 0xFFFF;

/// Autonomous-system state (`0x7A0` byte 0).
#[derive(Clone, Copy, Debug, PartialEq, Eq, Structural)]
pub enum UdvAsState {
    Off,
    Ready,
    Driving,
    Emergency,
    Finished,
    Other(u8),
}

impl UdvAsState {
    #[verifier::allow_in_spec]
    pub fn from_byte(b: u8) -> Self
        returns
            (match b {
                0 => UdvAsState::Off,
                1 => UdvAsState::Ready,
                2 => UdvAsState::Driving,
                3 => UdvAsState::Emergency,
                4 => UdvAsState::Finished,
                _ => UdvAsState::Other(b),
            }),
    {
        match b {
            0 => UdvAsState::Off,
            1 => UdvAsState::Ready,
            2 => UdvAsState::Driving,
            3 => UdvAsState::Emergency,
            4 => UdvAsState::Finished,
            other => UdvAsState::Other(other),
        }
    }
}

/// EBS-init sub-state (`0x7A0` byte 4, 0..=8).
#[derive(Clone, Copy, Debug, PartialEq, Eq, Structural)]
pub enum UdvEbsInit {
    Start,
    WaitLow,
    CheckPressure,
    WaitTs,
    CheckAct1,
    WaitInter,
    CheckAct2,
    Failed,
    Done,
    Other(u8),
}

impl UdvEbsInit {
    #[verifier::allow_in_spec]
    pub fn from_byte(b: u8) -> Self
        returns
            (match b {
                0 => UdvEbsInit::Start,
                1 => UdvEbsInit::WaitLow,
                2 => UdvEbsInit::CheckPressure,
                3 => UdvEbsInit::WaitTs,
                4 => UdvEbsInit::CheckAct1,
                5 => UdvEbsInit::WaitInter,
                6 => UdvEbsInit::CheckAct2,
                7 => UdvEbsInit::Failed,
                8 => UdvEbsInit::Done,
                _ => UdvEbsInit::Other(b),
            }),
    {
        match b {
            0 => UdvEbsInit::Start,
            1 => UdvEbsInit::WaitLow,
            2 => UdvEbsInit::CheckPressure,
            3 => UdvEbsInit::WaitTs,
            4 => UdvEbsInit::CheckAct1,
            5 => UdvEbsInit::WaitInter,
            6 => UdvEbsInit::CheckAct2,
            7 => UdvEbsInit::Failed,
            8 => UdvEbsInit::Done,
            other => UdvEbsInit::Other(other),
        }
    }
}

/// ASSI (autonomous status indicator) mode (`0x7A0` byte 6).
#[derive(Clone, Copy, Debug, PartialEq, Eq, Structural)]
pub enum UdvAssi {
    Off,
    Ready,
    Driving,
    Emergency,
    Finished,
    Other(u8),
}

impl UdvAssi {
    #[verifier::allow_in_spec]
    pub fn from_byte(b: u8) -> Self
        returns
            (match b {
                0 => UdvAssi::Off,
                1 => UdvAssi::Ready,
                2 => UdvAssi::Driving,
                3 => UdvAssi::Emergency,
                4 => UdvAssi::Finished,
                _ => UdvAssi::Other(b),
            }),
    {
        match b {
            0 => UdvAssi::Off,
            1 => UdvAssi::Ready,
            2 => UdvAssi::Driving,
            3 => UdvAssi::Emergency,
            4 => UdvAssi::Finished,
            other => UdvAssi::Other(other),
        }
    }
}

/// RES (remote-emergency-stop) status (`0x7A1` byte 1, signed −2..=2).
#[derive(Clone, Copy, Debug, PartialEq, Eq, Structural)]
pub enum UdvResStatus {
    NoStatus,
    Timeout,
    Okay,
    Estop,
    Go,
    Other(i8),
}

impl UdvResStatus {
    #[verifier::allow_in_spec]
    pub fn from_byte(b: i8) -> Self
        returns
            (match b {
                -2 => UdvResStatus::NoStatus,
                -1 => UdvResStatus::Timeout,
                0 => UdvResStatus::Okay,
                1 => UdvResStatus::Estop,
                2 => UdvResStatus::Go,
                _ => UdvResStatus::Other(b),
            }),
    {
        match b {
            -2 => UdvResStatus::NoStatus,
            -1 => UdvResStatus::Timeout,
            0 => UdvResStatus::Okay,
            1 => UdvResStatus::Estop,
            2 => UdvResStatus::Go,
            other => UdvResStatus::Other(other),
        }
    }
}

/// Steering-motor state (`0x7A1` byte 6, signed −1/0/1).
#[derive(Clone, Copy, Debug, PartialEq, Eq, Structural)]
pub enum UdvSteerMotor {
    Emergency,
    Off,
    On,
    Other(i8),
}

impl UdvSteerMotor {
    #[verifier::allow_in_spec]
    pub fn from_byte(b: i8) -> Self
        returns
            (match b {
                -1 => UdvSteerMotor::Emergency,
                0 => UdvSteerMotor::Off,
                1 => UdvSteerMotor::On,
                _ => UdvSteerMotor::Other(b),
            }),
    {
        match b {
            -1 => UdvSteerMotor::Emergency,
            0 => UdvSteerMotor::Off,
            1 => UdvSteerMotor::On,
            other => UdvSteerMotor::Other(other),
        }
    }
}

/// `0x7A0` — status; `signals` is the raw 10-bit mask.
#[derive(Clone, Copy, Debug, PartialEq, Eq, Structural)]
pub struct UdvStatusFrame {
    pub as_state: UdvAsState,
    pub signals: u16,
    /// Mission id, `-1` = none.
    pub mission_id: i8,
    pub ebs_init: UdvEbsInit,
    pub stub_mask: u8,
    pub assi: UdvAssi,
    pub diag_armed: bool,
}

/// `0x7A1` — RES + steering.
#[derive(Clone, Copy, Debug, PartialEq, Eq, Structural)]
pub struct UdvResFrame {
    /// Raw `0x191` data[0] passthrough.
    pub raw_0x191: u8,
    pub res_status: UdvResStatus,
    pub bits: u8,
    pub radio_quality: u8,
    /// RES frame age, ms (`0xFFFF` = never seen).
    pub res_age_ms: u16,
    pub steer_motor: UdvSteerMotor,
    pub lws_status: u8,
}

/// `0x7A2` — /dv pipe.
#[derive(Clone, Copy, Debug, PartialEq, Eq, Structural)]
pub struct UdvPipeFrame {
    pub dv_status: u8,
    pub dv_age_ms: u16,
    /// Accel command, signed percent.
    pub accel_cmd_pct: i8,
    /// Steering command, signed (normalised × 100).
    pub steer_cmd: i8,
    pub ctrl_age_ms: u16,
    pub setup_bits: u8,
}

/// `0x7A3` — health; heap in 4-byte words.
#[derive(Clone, Copy, Debug, PartialEq, Eq, Structural)]
pub struct UdvHealthFrame {
    pub free_heap_words: u16,
    pub min_free_heap_words: u16,
    pub task_mask: u8,
    pub flags: u8,
    /// Stalled task index, `-1` = none.
    pub stalled_task: i8,
    pub uptime_s: u8,
}

/// `0x7A4` — firmware identity.
#[derive(Clone, Copy, Debug, PartialEq, Eq, Structural)]
pub struct UdvFwInfoFrame {
    /// Git short hash (little-endian `u32` on the wire).
    pub git_hash: u32,
    pub stub_mask: u8,
    pub heap_size_kb: u8,
    pub uptime_s: u8,
}

/// `0x7A5` — FDCAN1 protocol status + error counters.
#[derive(Clone, Copy, Debug, PartialEq, Eq, Structural)]
pub struct UdvCanHealthFrame {
    pub flags: u8,
    pub last_error_code: u8,
    pub tx_err_count: u8,
    pub rx_err_count: u8,
    pub res_rx_count: u16,
    pub nmt_count: u8,
    /// An ACK error is present right now.
    pub ack_error: bool,
}

/// `0x7A6` — steering end-stop calibration status; angles in deci-degrees.
#[derive(Clone, Copy, Debug, PartialEq, Eq, Structural)]
pub struct UdvCalibFrame {
    pub phase: u8,
    pub error: u8,
    pub center_ddeg: i16,
    pub half_range_ddeg: i16,
    pub limit_ddeg: i16,
}

/// A decoded uDV pit-diag frame.
#[derive(Clone, Copy, Debug, PartialEq, Eq, Structural)]
pub enum UdvPitDiagFrame {
    Status(UdvStatusFrame),
    Res(UdvResFrame),
    Pipe(UdvPipeFrame),
    Health(UdvHealthFrame),
    FwInfo(UdvFwInfoFrame),
    CanHealth(UdvCanHealthFrame),
    Calib(UdvCalibFrame),
}

/// Names of the calibration phases.
pub open spec fn calib_phase_text(phase: u8) -> Seq<char> {
    if phase == 0 {
        "idle"@
    } else if phase == 1 || phase == 2 {
        "capturing end-stops"@
    } else if phase == 3 {
        "return to center"@
    } else if 4 <= phase <= 8 {
        "sweep"@
    } else if phase == 9 {
        "OK"@
    } else if phase == 10 {
        "FAIL"@
    } else {
        "unknown"@
    }
}

/// Name for a `0x7A6` calibration phase byte.
pub fn calib_phase_name(phase: u8) -> (s: &'static str)
    ensures
        s@ == calib_phase_text(phase),
{
    match phase {
        0 => "idle",
        1 | 2 => "capturing end-stops",
        3 => "return to center",
        4..=8 => "sweep",
        9 => "OK",
        10 => "FAIL",
        _ => "unknown",
    }
}

/// Names of the calibration error codes.
pub open spec fn calib_error_text(error: u8) -> Seq<char> {
    match error {
        0 => "none"@,
        1 => "LWS"@,
        2 => "timeout"@,
        3 => "range"@,
        4 => "center"@,
        5 => "flash"@,
        6 => "divergence"@,
        7 => "aborted"@,
        8 => "emergency"@,
        _ => "unknown"@,
    }
}

/// Name for a `0x7A6` calibration error byte.
pub fn calib_error_name(error: u8) -> (s: &'static str)
    ensures
        s@ == calib_error_text(error),
{
    match error {
        0 => "none",
        1 => "LWS",
        2 => "timeout",
        3 => "range",
        4 => "center",
        5 => "flash",
        6 => "divergence",
        7 => "aborted",
        8 => "emergency",
        _ => "unknown",
    }
}

/// Build the arm frame (`0x7DE` + `DE AD BE EF`); there is no disarm frame.
pub fn build_arm_frame() -> (f: CanFrame)
    ensures
        f.wf(),
        f.id == UDV_ARM_ID,
        f.payload_view() == super::arm_payload(true),
{
    let payload = UDV_ARM_ENABLE_PAYLOAD;
    assert(payload@ == super::arm_payload(true));
    match CanFrame::new(UDV_ARM_ID, payload.as_slice()) {
        Ok(f) => f,
        Err(_) => {
            assert(false);
            CanFrame { id: UDV_ARM_ID, len: 0, data: [0u8; 8] }
        },
    }
}

/// Build the steering-calibration trigger (`0x7DF`, DLC 1): `0x01` to
/// start, `0x02` to abort.
pub fn build_calib_trigger(start: bool) -> (f: CanFrame)
    ensures
        f.wf(),
        f.id == UDV_CALIB_TRIGGER_ID,
        f.payload_view() == seq![if start { UDV_CALIB_START } else { UDV_CALIB_ABORT }],
{
    let byte = if start {
        UDV_CALIB_START
    } else {
        UDV_CALIB_ABORT
    };
    let payload = [byte];
    match CanFrame::new(UDV_CALIB_TRIGGER_ID, payload.as_slice()) {
        Ok(f) => f,
        Err(_) => {
            assert(false);
            CanFrame { id: UDV_CALIB_TRIGGER_ID, len: 0, data: [0u8; 8] }
        },
    }
}

/// The id carries a uDV stream frame.
pub open spec fn is_stream_id(id: u16) -> bool {
    UDV_STATUS_ID <= id <= UDV_CALIB_ID
}

/// What [`decode_frame`] yields for identifier `id` and payload `p`.
pub open spec fn decode_spec(id: u16, p: Seq<u8>) -> Option<UdvPitDiagFrame> {
    if !is_stream_id(id) || p.len() < 8 {
        None
    } else if id == UDV_STATUS_ID {
        Some(UdvPitDiagFrame::Status(UdvStatusFrame {
            as_state: UdvAsState::from_byte(p[0]),
            signals: le16(p[1], p[2]),
            mission_id: as_i8(p[3]),
            ebs_init: UdvEbsInit::from_byte(p[4]),
            stub_mask: p[5],
            assi: UdvAssi::from_byte(p[6]),
            diag_armed: p[7] != 0,
        }))
    } else if id == UDV_RES_ID {
        Some(UdvPitDiagFrame::Res(UdvResFrame {
            raw_0x191: p[0],
            res_status: UdvResStatus::from_byte(as_i8(p[1])),
            bits: p[2],
            radio_quality: p[3],
            res_age_ms: le16(p[4], p[5]),
            steer_motor: UdvSteerMotor::from_byte(as_i8(p[6])),
            lws_status: p[7],
        }))
    } else if id == UDV_PIPE_ID {
        Some(UdvPitDiagFrame::Pipe(UdvPipeFrame {
            dv_status: p[0],
            dv_age_ms: le16(p[1], p[2]),
            accel_cmd_pct: as_i8(p[3]),
            steer_cmd: as_i8(p[4]),
            ctrl_age_ms: le16(p[5], p[6]),
            setup_bits: p[7],
        }))
    } else if id == UDV_HEALTH_ID {
        Some(UdvPitDiagFrame::Health(UdvHealthFrame {
            free_heap_words: le16(p[0], p[1]),
            min_free_heap_words: le16(p[2], p[3]),
            task_mask: p[4],
            flags: p[5],
            stalled_task: as_i8(p[6]),
            uptime_s: p[7],
        }))
    } else if id == UDV_FWINFO_ID {
        Some(UdvPitDiagFrame::FwInfo(UdvFwInfoFrame {
            git_hash: le32(p[0], p[1], p[2], p[3]),
            stub_mask: p[4],
            heap_size_kb: p[5],
            uptime_s: p[6],
        }))
    } else if id == UDV_CANHEALTH_ID {
        Some(UdvPitDiagFrame::CanHealth(UdvCanHealthFrame {
            flags: p[0],
            last_error_code: p[1],
            tx_err_count: p[2],
            rx_err_count: p[3],
            res_rx_count: le16(p[4], p[5]),
            nmt_count: p[6],
            ack_error: p[7] != 0,
        }))
    } else {
        Some(UdvPitDiagFrame::Calib(UdvCalibFrame {
            phase: p[0],
            error: p[1],
            center_ddeg: as_i16(le16(p[2], p[3])),
            half_range_ddeg: as_i16(le16(p[4], p[5])),
            limit_ddeg: as_i16(le16(p[6], p[7])),
        }))
    }
}

/// Decode a raw CAN frame into a uDV pit-diag record, or `None` if the ID
/// is not part of the stream or the payload is shorter than eight bytes.
pub fn decode_frame(frame: &CanFrame) -> (r: Option<UdvPitDiagFrame>)
    requires
        frame.wf(),
    ensures
        r == decode_spec(frame.id, frame.payload_view()),
{
    let p = frame.payload();
    let id = frame.id;
    if id < UDV_STATUS_ID || id > UDV_CALIB_ID {
        return None;
    }
    if p.len() < 8 {
        return None;
    }
    if id == UDV_STATUS_ID {
        Some(UdvPitDiagFrame::Status(UdvStatusFrame {
            as_state: UdvAsState::from_byte(p[0]),
            signals: le16_of(p[1], p[2]),
            mission_id: i8_of(p[3]),
            ebs_init: UdvEbsInit::from_byte(p[4]),
            stub_mask: p[5],
            assi: UdvAssi::from_byte(p[6]),
            diag_armed: p[7] != 0,
        }))
    } else if id == UDV_RES_ID {
        Some(UdvPitDiagFrame::Res(UdvResFrame {
            raw_0x191: p[0],
            res_status: UdvResStatus::from_byte(i8_of(p[1])),
            bits: p[2],
            radio_quality: p[3],
            res_age_ms: le16_of(p[4], p[5]),
            steer_motor: UdvSteerMotor::from_byte(i8_of(p[6])),
            lws_status: p[7],
        }))
    } else if id == UDV_PIPE_ID {
        Some(UdvPitDiagFrame::Pipe(UdvPipeFrame {
            dv_status: p[0],
            dv_age_ms: le16_of(p[1], p[2]),
            accel_cmd_pct: i8_of(p[3]),
            steer_cmd: i8_of(p[4]),
            ctrl_age_ms: le16_of(p[5], p[6]),
            setup_bits: p[7],
        }))
    } else if id == UDV_HEALTH_ID {
        Some(UdvPitDiagFrame::Health(UdvHealthFrame {
            free_heap_words: le16_of(p[0], p[1]),
            min_free_heap_words: le16_of(p[2], p[3]),
            task_mask: p[4],
            flags: p[5],
            stalled_task: i8_of(p[6]),
            uptime_s: p[7],
        }))
    } else if id == UDV_FWINFO_ID {
        Some(UdvPitDiagFrame::FwInfo(UdvFwInfoFrame {
            git_hash: le32_of(p[0], p[1], p[2], p[3]),
            stub_mask: p[4],
            heap_size_kb: p[5],
            uptime_s: p[6],
        }))
    } else if id == UDV_CANHEALTH_ID {
        Some(UdvPitDiagFrame::CanHealth(UdvCanHealthFrame {
            flags: p[0],
            last_error_code: p[1],
            tx_err_count: p[2],
            rx_err_count: p[3],
            res_rx_count: le16_of(p[4], p[5]),
            nmt_count: p[6],
            ack_error: p[7] != 0,
        }))
    } else {
        Some(UdvPitDiagFrame::Calib(UdvCalibFrame {
            phase: p[0],
            error: p[1],
            center_ddeg: i16_of(le16_of(p[2], p[3])),
            half_range_ddeg: i16_of(le16_of(p[4], p[5])),
            limit_ddeg: i16_of(le16_of(p[6], p[7])),
        }))
    }
}

} // verus!
