//! AMS pit-diag observer protocol: the arm/disarm handshake and the
//! decoders for the 58-frame diagnostic stream (24 cell-voltage frames,
//! 25 NTC-temperature frames and the nine-frame diag block).
//!
//! Wire summary:
//! - enable: `0x7F0` with `DE AD BE EF`; disable: `0x7F0` with `00 00 00 00`;
//! - ACK: `0x7F1`, one byte, `0x01` enabled / `0x00` disabled;
//! - `0x680..=0x697` cell voltages (4 per frame, big-endian mV);
//! - `0x6A0..=0x6B8` NTC temperatures (8 per frame, signed °C);
//! - `0x6C0..=0x6C8` diag block (FSM status, poll timing, balance mask,
//!   boot diag, crash post-mortem, firmware ID, per-IC PEC counts).
//!
//! Cell voltages and the V-poll latencies are big-endian; the rest of the
//! diag block is little-endian.
pub mod ecu;
pub mod udv;
pub mod laws;
pub mod layout;
pub mod names;

use vstd::prelude::*;
use crate::bytes::{as_i8, be16, be16_of, i8_of, le16, le16_of, le32, le32_of, le64, le64_of};
use crate::protocol::CanFrame;

verus! {

// ---- Wire-level constants ----

/// CAN ID the AMS listens on for arm/disarm commands.
pub const AMS_ARM_ID: u16 = 0x7F0;
/// CAN ID the AMS uses to ACK arm/disarm commands.
pub const AMS_ACK_ID: u16 = 0x7F1;
/// Arm payload — the `DE AD BE EF` sentinel.
pub const AMS_ARM_ENABLE_PAYLOAD: [u8; 4] = [0xDE, 0xAD, 0xBE, 0xEF];
/// Disarm payload — all zeros.
pub const AMS_ARM_DISABLE_PAYLOAD: [u8; 4] = [0x00, 0x00, 0x00, 0x00];

// ---- Pack geometry ----

/// Number of modules in the AMS pack.
pub const AMS_NUM_MODULES: usize = 5;
/// Cells per module.
pub const AMS_CELLS_PER_MODULE: usize = 19;
/// Total cells = modules × cells/module = 95.
pub const AMS_NUM_CELLS: usize = AMS_NUM_MODULES * AMS_CELLS_PER_MODULE;
/// NTC temperature sensors per module.
pub const AMS_NTC_PER_MODULE: usize = 40;
/// Total NTCs = modules × NTCs/module = 200.
pub const AMS_NUM_NTCS: usize = AMS_NUM_MODULES * AMS_NTC_PER_MODULE;

// ---- Stream ID ranges ----

/// First CAN ID in the cell-voltage stream.
pub const AMS_CELLV_BASE_ID: u16 = 0x680;
/// Last CAN ID in the cell-voltage stream.
pub const AMS_CELLV_LAST_ID: u16 = 0x697;
/// Number of frames in the cell-voltage stream.
pub const AMS_CELLV_NUM_FRAMES: usize = 24;
/// Value in slots past the last real cell (95 cells do not fill 24 × 4).
pub const AMS_CELLV_SENTINEL: u16 = 0xFFFF;
/// First CAN ID in the NTC-temperature stream.
pub const AMS_NTC_BASE_ID: u16 = 0x6A0;
/// Last CAN ID in the NTC-temperature stream.
pub const AMS_NTC_LAST_ID: u16 = 0x6B8;
/// Number of frames in the NTC-temperature stream.
pub const AMS_NTC_NUM_FRAMES: usize = 25;
/// First CAN ID of the contiguous diag block.
pub const AMS_DIAG_BASE_ID: u16 = 0x6C0;
/// Last CAN ID of the diag block.
pub const AMS_DIAG_LAST_ID: u16 = 0x6C8;
/// Number of frames in the diag block.
pub const AMS_DIAG_NUM_FRAMES: usize = 9;
/// CAN ID of the FSM extended-status frame.
pub const AMS_FSM_STATUS_ID: u16 = 0x6C0;
/// CAN ID of the poll-timing frame.
pub const AMS_POLL_TIMING_ID: u16 = 0x6C1;
/// CAN ID of balance DCC mask frame A (cells 0..=63).
pub const AMS_BALANCE_MASK_A_ID: u16 = 0x6C2;
/// CAN ID of balance DCC mask frame B (cells 64..=94 + cycle counts).
pub const AMS_BALANCE_MASK_B_ID: u16 = 0x6C3;
/// CAN ID of the boot-diag frame.
pub const AMS_BOOT_DIAG_ID: u16 = 0x6C4;
/// CAN ID of the crash post-mortem frame.
pub const AMS_POST_MORTEM_ID: u16 = 0x6C5;
/// CAN ID of the firmware-ID frame.
pub const AMS_FW_ID_ID: u16 = 0x6C6;
/// CAN ID of the per-IC PEC frame covering ICs 0..=7.
pub const AMS_PER_IC_PEC_LO_ID: u16 = 0x6C7;
/// CAN ID of the per-IC PEC frame covering ICs 8..=9 (+ reserved).
pub const AMS_PER_IC_PEC_HI_ID: u16 = 0x6C8;
/// Monitor ICs in the pack: two per module.
pub const AMS_NUM_ICS: usize = 2 * AMS_NUM_MODULES;
/// Frames per 1 Hz scan when armed: 24 + 25 + 9 = 58.
pub const AMS_EXPECTED_FRAMES_PER_SCAN: usize =
    AMS_CELLV_NUM_FRAMES + AMS_NTC_NUM_FRAMES + AMS_DIAG_NUM_FRAMES;


// ---- Decoded records ----

/// One frame's worth of decoded cell voltages.
///
/// `first_cell` is the pack-wide index of slot 0. The last frame carries
/// `AMS_CELLV_SENTINEL` in slot 3; consumers range-check against
/// `AMS_NUM_CELLS` (see [`is_real_cell_index`]).
#[derive(Clone, Copy, Debug, PartialEq, Eq)]
pub struct CellVoltageFrame {
    /// 0-based frame index in the cell-voltage stream (0..24).
    pub frame_idx: u8,
    /// First cell index this frame covers (`frame_idx * 4`).
    pub first_cell: u16,
    /// Four voltages in mV (big-endian `u16` on the wire).
    pub voltages_mv: [u16; 4],
}

/// One frame's worth of decoded NTC temperatures.
#[derive(Clone, Copy, Debug, PartialEq, Eq)]
pub struct NtcTempFrame {
    /// 0-based frame index in the NTC stream (0..25).
    pub frame_idx: u8,
    /// First NTC index this frame covers (`frame_idx * 8`).
    pub first_ntc: u16,
    /// Eight temperatures in °C (signed `i8` on the wire).
    pub temps_c: [i8; 8],
}

/// AMS FSM state (byte 0 of `0x6C0`, values 0..=5).
#[derive(Clone, Copy, Debug, PartialEq, Eq, Structural)]
pub enum FsmState {
    Start,
    Precharge,
    Transition,
    Run,
    Charge,
    Error,
    /// Any state byte outside 0..=5, kept raw.
    Unknown(u8),
}

impl FsmState {
    /// Decode the raw state byte.
    #[verifier::allow_in_spec]
    pub fn from_byte(b: u8) -> Self
        returns
            (match b {
                0 => FsmState::Start,
                1 => FsmState::Precharge,
                2 => FsmState::Transition,
                3 => FsmState::Run,
                4 => FsmState::Charge,
                5 => FsmState::Error,
                _ => FsmState::Unknown(b),
            }),
    {
        match b {
            0 => FsmState::Start,
            1 => FsmState::Precharge,
            2 => FsmState::Transition,
            3 => FsmState::Run,
            4 => FsmState::Charge,
            5 => FsmState::Error,
            other => FsmState::Unknown(other),
        }
    }
}

/// Mode lock (byte 1 of `0x6C0`, values 0..=2).
#[derive(Clone, Copy, Debug, PartialEq, Eq, Structural)]
pub enum ModeLock {
    Undecided,
    Car,
    Charger,
    Unknown(u8),
}

impl ModeLock {
    /// Decode the raw mode byte.
    #[verifier::allow_in_spec]
    pub fn from_byte(b: u8) -> Self
        returns
            (match b {
                0 => ModeLock::Undecided,
                1 => ModeLock::Car,
                2 => ModeLock::Charger,
                _ => ModeLock::Unknown(b),
            }),
    {
        match b {
            0 => ModeLock::Undecided,
            1 => ModeLock::Car,
            2 => ModeLock::Charger,
            other => ModeLock::Unknown(other),
        }
    }
}

/// Which safety predicate latched the AMS into ERROR (byte 6 of `0x6C0`;
/// `NoFault` when healthy, which is also what older firmware sends).
#[derive(Clone, Copy, Debug, PartialEq, Eq, Structural)]
pub enum FaultReason {
    NoFault,
    ForceError,
    BmsModuleOffline,
    BmsStale,
    CellUnderVoltage,
    CellOverVoltage,
    CellUnderTemp,
    CellOverTemp,
    CurrentSensorFault,
    CurrentStale,
    CurrentOverLimit,
    VcuStale,
    /// FSM-driven error path — precharge timeout / TSMS / DASH_CHG drop.
    FsmError,
    /// A reason byte this build does not recognise.
    Unknown(u8),
}

impl FaultReason {
    /// Decode the raw reason byte.
    #[verifier::allow_in_spec]
    pub fn from_byte(b: u8) -> Self
        returns
            (match b {
                0 => FaultReason::NoFault,
                1 => FaultReason::ForceError,
                2 => FaultReason::BmsModuleOffline,
                3 => FaultReason::BmsStale,
                4 => FaultReason::CellUnderVoltage,
                5 => FaultReason::CellOverVoltage,
                6 => FaultReason::CellUnderTemp,
                7 => FaultReason::CellOverTemp,
                8 => FaultReason::CurrentSensorFault,
                9 => FaultReason::CurrentStale,
                10 => FaultReason::CurrentOverLimit,
                11 => FaultReason::VcuStale,
                12 => FaultReason::FsmError,
                _ => FaultReason::Unknown(b),
            }),
    {
        match b {
            0 => FaultReason::NoFault,
            1 => FaultReason::ForceError,
            2 => FaultReason::BmsModuleOffline,
            3 => FaultReason::BmsStale,
            4 => FaultReason::CellUnderVoltage,
            5 => FaultReason::CellOverVoltage,
            6 => FaultReason::CellUnderTemp,
            7 => FaultReason::CellOverTemp,
            8 => FaultReason::CurrentSensorFault,
            9 => FaultReason::CurrentStale,
            10 => FaultReason::CurrentOverLimit,
            11 => FaultReason::VcuStale,
            12 => FaultReason::FsmError,
            other => FaultReason::Unknown(other),
        }
    }
}

/// Decoded `0x6C0` — FSM extended status.
#[derive(Clone, Copy, Debug, PartialEq, Eq, Structural)]
pub struct FsmStatusFrame {
    pub state: FsmState,
    pub mode_locked: ModeLock,
    pub tsms: bool,
    pub dash_chg: bool,
    pub ams_ok: bool,
    pub pec_error_total: u16,
    /// Why the AMS latched ERROR (byte 6); `NoFault` when absent.
    pub fault_reason: FaultReason,
    /// Context for `fault_reason` (byte 7); 0 when absent.
    pub fault_detail: u8,
}

/// Decoded `0x6C7` / `0x6C8` — per-IC PEC error counts.
#[derive(Clone, Copy, Debug, PartialEq, Eq)]
pub struct PerIcPecFrame {
    /// Index of the first IC this frame covers (0 or 8).
    pub first_ic: u8,
    /// Saturating per-IC counts; only the first `valid` are real ICs.
    pub counts: [u8; 8],
    /// How many entries map to real ICs (8 for `0x6C7`, 2 for `0x6C8`).
    pub valid: u8,
}

/// Decoded `0x6C1` — poll timing.
#[derive(Clone, Copy, Debug, PartialEq, Eq, Structural)]
pub struct PollTimingFrame {
    pub last_v_poll_ms: u16,
    pub worst_v_poll_ms: u16,
    pub t_sweep_fail_mask: u32,
}

/// Balance (cell-discharge) state reassembled from `0x6C2` / `0x6C3`:
/// a 95-bit DCC mask, one bit per cell, plus two cycle counters.
#[derive(Clone, Copy, Debug, PartialEq, Eq, Default, Structural)]
pub struct BalanceState {
    /// Cells 0..=63 discharge mask (`0x6C2`).
    pub dcc_lo: u64,
    /// Cells 64..=94 discharge mask in the low 31 bits (`0x6C3`).
    pub dcc_hi: u32,
    /// Total balance cycles since boot, mod 65536.
    pub cycles_total: u16,
    /// Cycles where at least one DCC bit was set.
    pub cycles_active: u16,
}

/// Bit `i` of the 95-bit DCC mask formed by `lo` (bits 0..=63) and the
/// low 31 bits of `hi` (bits 64..=94); cells past 94 are never discharging.
pub open spec fn dcc_bit(lo: u64, hi: u32, i: nat) -> bool {
    if i < 64 {
        (lo as nat / vstd::arithmetic::power2::pow2(i)) % 2 == 1
    } else if i < 95 {
        (hi as nat / vstd::arithmetic::power2::pow2((i - 64) as nat)) % 2 == 1
    } else {
        false
    }
}

impl BalanceState {
    /// Is `cell_idx` currently discharging? `false` for out-of-range indices.
    pub fn is_discharging(&self, cell_idx: usize) -> (r: bool)
        ensures
            r == dcc_bit(self.dcc_lo, self.dcc_hi, cell_idx as nat),
    {
        if cell_idx < 64 {
            let sh = cell_idx as u64;
            let r = (self.dcc_lo >> sh) & 1 == 1;
            proof {
                let lo = self.dcc_lo;
                assert((lo >> sh) & 1 == (lo >> sh) % 2) by (bit_vector);
                vstd::bits::lemma_u64_shr_is_div(lo, sh);
            }
            r
        } else if cell_idx < AMS_NUM_CELLS {
            let sh = (cell_idx - 64) as u32;
            let r = (self.dcc_hi >> sh) & 1 == 1;
            proof {
                let hi = self.dcc_hi;
                assert((hi >> sh) & 1 == (hi >> sh) % 2) by (bit_vector);
                vstd::bits::lemma_u32_shr_is_div(hi, sh);
            }
            r
        } else {
            false
        }
    }
}

/// `0x6C2` — balance DCC mask frame A: cells 0..=63 as an LE `u64`.
#[derive(Clone, Copy, Debug, PartialEq, Eq, Structural)]
pub struct BalanceMaskAFrame {
    pub dcc_lo: u64,
}

/// `0x6C3` — balance DCC mask frame B: cells 64..=94 + cycle counters.
#[derive(Clone, Copy, Debug, PartialEq, Eq, Structural)]
pub struct BalanceMaskBFrame {
    pub dcc_hi: u32,
    pub cycles_total: u16,
    pub cycles_active: u16,
}

/// Why the firmware (re)booted (`0x6C4[0..4]`, LE `u32`).
#[derive(Clone, Copy, Debug, PartialEq, Eq, Structural)]
pub enum JumpReason {
    /// Cold boot / power-on reset (value 0).
    PowerOn,
    /// `'JUMP'` (0x4A554D50) — jumped from the bootloader via a CAN trigger.
    CanTrigger,
    /// `'MANU'` (0x4D414E55) — manual jump request.
    Manual,
    /// Any other value, kept raw.
    Unknown(u32),
}

impl JumpReason {
    /// Decode the raw 32-bit tag.
    #[verifier::allow_in_spec]
    pub fn from_u32(v: u32) -> Self
        returns
            (if v == 0 {
                JumpReason::PowerOn
            } else if v == 0x4A55_4D50 {
                JumpReason::CanTrigger
            } else if v == 0x4D41_4E55 {
                JumpReason::Manual
            } else {
                JumpReason::Unknown(v)
            }),
    {
        match v {
            0 => JumpReason::PowerOn,
            0x4A55_4D50 => JumpReason::CanTrigger,
            0x4D41_4E55 => JumpReason::Manual,
            other => JumpReason::Unknown(other),
        }
    }
}

/// Decoded `0x6C4` — boot diagnostics.
#[derive(Clone, Copy, Debug, PartialEq, Eq, Structural)]
pub struct BootDiagFrame {
    pub jump_reason: JumpReason,
    /// Last init milestone reached (0..=7; 7 = clean boot).
    pub app_init_progress: u8,
    /// Low 24 bits of the `HAL_FDCAN_Start` return — 0 is `HAL_OK`.
    pub fdcan1_start_result: u32,
}

/// Decoded `0x6C5` — crash post-mortem from the previous boot.
#[derive(Clone, Copy, Debug, PartialEq, Eq, Structural)]
pub struct PostMortemFrame {
    pub stack_overflow_seen: bool,
    pub watermark_low_byte: u8,
    pub task_addr_lo: u32,
    pub malloc_failed_count: u16,
}

impl PostMortemFrame {
    /// Did the previous boot record no fault worth surfacing?
    pub fn is_clean(&self) -> (r: bool)
        ensures
            r == (!self.stack_overflow_seen && self.task_addr_lo == 0
                && self.malloc_failed_count == 0),
    {
        !self.stack_overflow_seen && self.task_addr_lo == 0 && self.malloc_failed_count == 0
    }
}

/// Decoded `0x6C6` — firmware identity.
#[derive(Clone, Copy, Debug, PartialEq, Eq)]
pub struct FwIdFrame {
    pub version_major: u8,
    pub version_minor: u8,
    pub version_patch: u8,
    /// First four bytes of the firmware git hash.
    pub git_hash: [u8; 4],
    /// Bootloader node-id.
    pub bl_node_id: u8,
}

/// A decoded pit-diag frame, dispatched by CAN ID.
#[derive(Clone, Copy, Debug, PartialEq, Eq)]
pub enum PitDiagFrame {
    /// The AMS answered an arm/disarm command.
    Ack {
        /// `true` after an arm (`payload[0] == 0x01`), `false` otherwise.
        enabled: bool,
    },
    CellVoltage(CellVoltageFrame),
    NtcTemp(NtcTempFrame),
    FsmStatus(FsmStatusFrame),
    PollTiming(PollTimingFrame),
    BalanceMaskA(BalanceMaskAFrame),
    BalanceMaskB(BalanceMaskBFrame),
    BootDiag(BootDiagFrame),
    PostMortem(PostMortemFrame),
    FwId(FwIdFrame),
    PerIcPec(PerIcPecFrame),
}

// ---- Encode / decode ----

/// The payload the AMS stream expects for an arm (`true`) or disarm command.
pub open spec fn arm_payload(enable: bool) -> Seq<u8> {
    if enable {
        seq![0xDEu8, 0xADu8, 0xBEu8, 0xEFu8]
    } else {
        seq![0u8, 0u8, 0u8, 0u8]
    }
}

/// Build the frame that arms (or disarms) the AMS pit-diag stream.
pub fn build_arm_frame(enable: bool) -> (f: CanFrame)
    ensures
        f.wf(),
        f.id == AMS_ARM_ID,
        f.payload_view() == arm_payload(enable),
{
    let payload = if enable {
        AMS_ARM_ENABLE_PAYLOAD
    } else {
        AMS_ARM_DISABLE_PAYLOAD
    };
    assert(payload@ == arm_payload(enable));
    match CanFrame::new(AMS_ARM_ID, payload.as_slice()) {
        Ok(f) => f,
        Err(_) => {
            assert(false);
            CanFrame { id: AMS_ARM_ID, len: 0, data: [0u8; 8] }
        },
    }
}

/// The id carries an AMS stream frame (not the ACK).
pub open spec fn is_stream_id(id: u16) -> bool {
    (AMS_CELLV_BASE_ID <= id <= AMS_CELLV_LAST_ID) || (AMS_NTC_BASE_ID <= id <= AMS_NTC_LAST_ID)
        || (AMS_DIAG_BASE_ID <= id <= AMS_DIAG_LAST_ID)
}

/// What [`decode_frame`] yields for identifier `id` and payload `p`.
pub open spec fn decode_spec(id: u16, p: Seq<u8>) -> Option<PitDiagFrame> {
    if id == AMS_ACK_ID {
        Some(PitDiagFrame::Ack { enabled: p.len() > 0 && p[0] == 1 })
    } else if AMS_CELLV_BASE_ID <= id <= AMS_CELLV_LAST_ID {
        if p.len() < 8 {
            None
        } else {
            let idx = (id - AMS_CELLV_BASE_ID) as u8;
            Some(PitDiagFrame::CellVoltage(CellVoltageFrame {
                frame_idx: idx,
                first_cell: (idx * 4) as u16,
                voltages_mv: [be16(p[0], p[1]), be16(p[2], p[3]), be16(p[4], p[5]), be16(p[6], p[7])],
            }))
        }
    } else if AMS_NTC_BASE_ID <= id <= AMS_NTC_LAST_ID {
        if p.len() < 8 {
            None
        } else {
            let idx = (id - AMS_NTC_BASE_ID) as u8;
            Some(PitDiagFrame::NtcTemp(NtcTempFrame {
                frame_idx: idx,
                first_ntc: (idx * 8) as u16,
                temps_c: [as_i8(p[0]), as_i8(p[1]), as_i8(p[2]), as_i8(p[3]), as_i8(p[4]),
                    as_i8(p[5]), as_i8(p[6]), as_i8(p[7])],
            }))
        }
    } else if id == AMS_FSM_STATUS_ID {
        if p.len() < 6 {
            None
        } else {
            Some(PitDiagFrame::FsmStatus(FsmStatusFrame {
                state: FsmState::from_byte(p[0]),
                mode_locked: ModeLock::from_byte(p[1]),
                tsms: p[2] & 2 != 0,
                dash_chg: p[2] & 1 != 0,
                ams_ok: p[3] != 0,
                pec_error_total: be16(p[4], p[5]),
                fault_reason: if p.len() > 6 { FaultReason::from_byte(p[6]) } else { FaultReason::NoFault },
                fault_detail: if p.len() > 7 { p[7] } else { 0 },
            }))
        }
    } else if id == AMS_POLL_TIMING_ID {
        if p.len() < 8 {
            None
        } else {
            Some(PitDiagFrame::PollTiming(PollTimingFrame {
                last_v_poll_ms: be16(p[0], p[1]),
                worst_v_poll_ms: be16(p[2], p[3]),
                t_sweep_fail_mask: le32(p[4], p[5], p[6], p[7]),
            }))
        }
    } else if id == AMS_BALANCE_MASK_A_ID {
        if p.len() < 8 {
            None
        } else {
            Some(PitDiagFrame::BalanceMaskA(BalanceMaskAFrame {
                dcc_lo: le64(p[0], p[1], p[2], p[3], p[4], p[5], p[6], p[7]),
            }))
        }
    } else if id == AMS_BALANCE_MASK_B_ID {
        if p.len() < 8 {
            None
        } else {
            Some(PitDiagFrame::BalanceMaskB(BalanceMaskBFrame {
                dcc_hi: le32(p[0], p[1], p[2], p[3]),
                cycles_total: le16(p[4], p[5]),
                cycles_active: le16(p[6], p[7]),
            }))
        }
    } else if id == AMS_BOOT_DIAG_ID {
        if p.len() < 8 {
            None
        } else {
            Some(PitDiagFrame::BootDiag(BootDiagFrame {
                jump_reason: JumpReason::from_u32(le32(p[0], p[1], p[2], p[3])),
                app_init_progress: p[4],
                fdcan1_start_result: le32(p[5], p[6], p[7], 0),
            }))
        }
    } else if id == AMS_POST_MORTEM_ID {
        if p.len() < 8 {
            None
        } else {
            Some(PitDiagFrame::PostMortem(PostMortemFrame {
                stack_overflow_seen: p[0] != 0,
                watermark_low_byte: p[1],
                task_addr_lo: le32(p[2], p[3], p[4], p[5]),
                malloc_failed_count: le16(p[6], p[7]),
            }))
        }
    } else if id == AMS_FW_ID_ID {
        if p.len() < 8 {
            None
        } else {
            Some(PitDiagFrame::FwId(FwIdFrame {
                version_major: p[0],
                version_minor: p[1],
                version_patch: p[2],
                git_hash: [p[3], p[4], p[5], p[6]],
                bl_node_id: p[7],
            }))
        }
    } else if id == AMS_PER_IC_PEC_LO_ID || id == AMS_PER_IC_PEC_HI_ID {
        if p.len() < 8 {
            None
        } else {
            Some(PitDiagFrame::PerIcPec(PerIcPecFrame {
                first_ic: if id == AMS_PER_IC_PEC_LO_ID { 0 } else { 8 },
                counts: [p[0], p[1], p[2], p[3], p[4], p[5], p[6], p[7]],
                valid: if id == AMS_PER_IC_PEC_LO_ID { 8 } else { 2 },
            }))
        }
    } else {
        None
    }
}

/// Decode a raw CAN frame into a pit-diag record; `None` when the ID is not
/// part of the AMS stream or a recognised ID arrives with a short payload.
pub fn decode_frame(frame: &CanFrame) -> (r: Option<PitDiagFrame>)
    requires
        frame.wf(),
    ensures
        r == decode_spec(frame.id, frame.payload_view()),
{
    let id = frame.id;
    let p = frame.payload();
    let n = p.len();

    if id == AMS_ACK_ID {
        let enabled = n > 0 && p[0] == 0x01;
        return Some(PitDiagFrame::Ack { enabled });
    }
    if AMS_CELLV_BASE_ID <= id && id <= AMS_CELLV_LAST_ID {
        if n < 8 {
            return None;
        }
        let frame_idx = (id - AMS_CELLV_BASE_ID) as u8;
        let voltages_mv = [
            be16_of(p[0], p[1]),
            be16_of(p[2], p[3]),
            be16_of(p[4], p[5]),
            be16_of(p[6], p[7]),
        ];
        return Some(PitDiagFrame::CellVoltage(CellVoltageFrame {
            frame_idx,
            first_cell: (frame_idx as u16) * 4,
            voltages_mv,
        }));
    }
    if AMS_NTC_BASE_ID <= id && id <= AMS_NTC_LAST_ID {
        if n < 8 {
            return None;
        }
        let frame_idx = (id - AMS_NTC_BASE_ID) as u8;
        let temps_c = [
            i8_of(p[0]),
            i8_of(p[1]),
            i8_of(p[2]),
            i8_of(p[3]),
            i8_of(p[4]),
            i8_of(p[5]),
            i8_of(p[6]),
            i8_of(p[7]),
        ];
        return Some(PitDiagFrame::NtcTemp(NtcTempFrame {
            frame_idx,
            first_ntc: (frame_idx as u16) * 8,
            temps_c,
        }));
    }
    if id == AMS_FSM_STATUS_ID {
        if n < 6 {
            return None;
        }
        let cockpit_bits = p[2];
        let fault_reason = if n > 6 { FaultReason::from_byte(p[6]) } else { FaultReason::NoFault };
        let fault_detail = if n > 7 { p[7] } else { 0 };
        return Some(PitDiagFrame::FsmStatus(FsmStatusFrame {
            state: FsmState::from_byte(p[0]),
            mode_locked: ModeLock::from_byte(p[1]),
            tsms: (cockpit_bits & 0b0000_0010) != 0,
            dash_chg: (cockpit_bits & 0b0000_0001) != 0,
            ams_ok: p[3] != 0,
            pec_error_total: be16_of(p[4], p[5]),
            fault_reason,
            fault_detail,
        }));
    }
    if id == AMS_POLL_TIMING_ID {
        if n < 8 {
            return None;
        }
        return Some(PitDiagFrame::PollTiming(PollTimingFrame {
            last_v_poll_ms: be16_of(p[0], p[1]),
            worst_v_poll_ms: be16_of(p[2], p[3]),
            t_sweep_fail_mask: le32_of(p[4], p[5], p[6], p[7]),
        }));
    }
    if id == AMS_BALANCE_MASK_A_ID {
        if n < 8 {
            return None;
        }
        return Some(PitDiagFrame::BalanceMaskA(BalanceMaskAFrame {
            dcc_lo: le64_of(p[0], p[1], p[2], p[3], p[4], p[5], p[6], p[7]),
        }));
    }
    if id == AMS_BALANCE_MASK_B_ID {
        if n < 8 {
            return None;
        }
        return Some(PitDiagFrame::BalanceMaskB(BalanceMaskBFrame {
            dcc_hi: le32_of(p[0], p[1], p[2], p[3]),
            cycles_total: le16_of(p[4], p[5]),
            cycles_active: le16_of(p[6], p[7]),
        }));
    }
    if id == AMS_BOOT_DIAG_ID {
        if n < 8 {
            return None;
        }
        return Some(PitDiagFrame::BootDiag(BootDiagFrame {
            jump_reason: JumpReason::from_u32(le32_of(p[0], p[1], p[2], p[3])),
            app_init_progress: p[4],
            fdcan1_start_result: le32_of(p[5], p[6], p[7], 0),
        }));
    }
    if id == AMS_POST_MORTEM_ID {
        if n < 8 {
            return None;
        }
        return Some(PitDiagFrame::PostMortem(PostMortemFrame {
            stack_overflow_seen: p[0] != 0,
            watermark_low_byte: p[1],
            task_addr_lo: le32_of(p[2], p[3], p[4], p[5]),
            malloc_failed_count: le16_of(p[6], p[7]),
        }));
    }
    if id == AMS_FW_ID_ID {
        if n < 8 {
            return None;
        }
        return Some(PitDiagFrame::FwId(FwIdFrame {
            version_major: p[0],
            version_minor: p[1],
            version_patch: p[2],
            git_hash: [p[3], p[4], p[5], p[6]],
            bl_node_id: p[7],
        }));
    }
    if id == AMS_PER_IC_PEC_LO_ID || id == AMS_PER_IC_PEC_HI_ID {
        if n < 8 {
            return None;
        }
        let counts = [p[0], p[1], p[2], p[3], p[4], p[5], p[6], p[7]];
        let (first_ic, valid) = if id == AMS_PER_IC_PEC_LO_ID {
            (0u8, 8u8)
        } else {
            (8u8, (AMS_NUM_ICS as u8).saturating_sub(8))
        };
        return Some(PitDiagFrame::PerIcPec(PerIcPecFrame { first_ic, counts, valid }));
    }
    None
}

/// Is `cell_idx` a real cell (rather than the sentinel slot of the last
/// cell-voltage frame)?
pub fn is_real_cell_index(cell_idx: u16) -> (r: bool)
    ensures
        r == (cell_idx < AMS_NUM_CELLS),
{
    (cell_idx as usize) < AMS_NUM_CELLS
}

} // verus!
