//! Properties of the three pit-diag decoders taken together.
use vstd::prelude::*;
use super::ecu::{EcuFsmState, EcuInvState, EcuResetCause};
use super::udv::{UdvAsState, UdvAssi, UdvEbsInit, UdvResStatus, UdvSteerMotor};
use super::{
    arm_payload, decode_spec, ecu, is_stream_id, udv, FaultReason, FsmState, JumpReason, ModeLock,
    PitDiagFrame, AMS_ACK_ID, AMS_ARM_ID, AMS_CELLV_BASE_ID, AMS_CELLV_LAST_ID, AMS_CELLV_NUM_FRAMES,
    AMS_DIAG_BASE_ID, AMS_DIAG_LAST_ID, AMS_DIAG_NUM_FRAMES, AMS_EXPECTED_FRAMES_PER_SCAN,
    AMS_FSM_STATUS_ID, AMS_NTC_BASE_ID, AMS_NTC_LAST_ID, AMS_NTC_NUM_FRAMES, AMS_NUM_CELLS,
    AMS_NUM_ICS, AMS_NUM_NTCS, AMS_PER_IC_PEC_HI_ID,
};

verus! {

/// The AMS, ECU and uDV streams never claim the same frame: for any
/// identifier and payload at most one of the three decoders yields a
/// record, so a listener may try them in any order.
pub proof fn lemma_streams_independent(id: u16, p: Seq<u8>)
    ensures
        !(decode_spec(id, p) is Some && ecu::decode_spec(id, p) is Some),
        !(decode_spec(id, p) is Some && udv::decode_spec(id, p) is Some),
        !(ecu::decode_spec(id, p) is Some && udv::decode_spec(id, p) is Some),
{
}

/// A frame from the AMS decoder is either the ACK or comes from an AMS
/// stream identifier; likewise for the ECU; the uDV decoder only answers
/// on its stream identifiers.
pub proof fn lemma_decoded_ids(id: u16, p: Seq<u8>)
    ensures
        decode_spec(id, p) is Some ==> id == AMS_ACK_ID || is_stream_id(id),
        ecu::decode_spec(id, p) is Some ==> id == ecu::ECU_ACK_ID || ecu::is_stream_id(id),
        udv::decode_spec(id, p) is Some ==> udv::is_stream_id(id),
{
}

/// The ACK frames of AMS and ECU report `enabled` exactly when the first
/// payload byte is `0x01`; an empty ACK reads as disabled.
pub proof fn lemma_ack_semantics(p: Seq<u8>)
    ensures
        decode_spec(AMS_ACK_ID, p) == Some(PitDiagFrame::Ack { enabled: p.len() > 0 && p[0] == 1 }),
        ecu::decode_spec(ecu::ECU_ACK_ID, p) == Some(
            ecu::EcuPitDiagFrame::Ack { enabled: p.len() > 0 && p[0] == 1 },
        ),
{
}

/// The arm/disarm command frames are not stream frames: feeding an arm
/// frame back to any decoder yields nothing.
pub proof fn lemma_arm_frames_not_decoded(enable: bool)
    ensures
        decode_spec(AMS_ARM_ID, arm_payload(enable)) is None,
        decode_spec(ecu::ECU_ARM_ID, arm_payload(enable)) is None,
        decode_spec(udv::UDV_ARM_ID, arm_payload(enable)) is None,
        ecu::decode_spec(AMS_ARM_ID, arm_payload(enable)) is None,
        ecu::decode_spec(ecu::ECU_ARM_ID, arm_payload(enable)) is None,
        ecu::decode_spec(udv::UDV_ARM_ID, arm_payload(enable)) is None,
        udv::decode_spec(AMS_ARM_ID, arm_payload(enable)) is None,
        udv::decode_spec(ecu::ECU_ARM_ID, arm_payload(enable)) is None,
        udv::decode_spec(udv::UDV_ARM_ID, arm_payload(enable)) is None,
{
}

/// Byte-to-state decoding loses nothing: distinct raw bytes give distinct
/// states, and a byte outside the documented table comes back as the
/// catch-all variant carrying that byte.
pub proof fn lemma_state_bytes_lossless(a: u8, b: u8)
    ensures
        FsmState::from_byte(a) == FsmState::from_byte(b) ==> a == b,
        ModeLock::from_byte(a) == ModeLock::from_byte(b) ==> a == b,
        FaultReason::from_byte(a) == FaultReason::from_byte(b) ==> a == b,
        EcuFsmState::from_byte(a) == EcuFsmState::from_byte(b) ==> a == b,
        EcuInvState::from_byte(a) == EcuInvState::from_byte(b) ==> a == b,
        EcuResetCause::from_byte(a) == EcuResetCause::from_byte(b) ==> a == b,
        UdvAsState::from_byte(a) == UdvAsState::from_byte(b) ==> a == b,
        UdvEbsInit::from_byte(a) == UdvEbsInit::from_byte(b) ==> a == b,
        UdvAssi::from_byte(a) == UdvAssi::from_byte(b) ==> a == b,
        (FsmState::from_byte(a) is Unknown) <==> a > 5,
        (ModeLock::from_byte(a) is Unknown) <==> a > 2,
        (FaultReason::from_byte(a) is Unknown) <==> a > 12,
        (EcuFsmState::from_byte(a) is Unknown) <==> a > 6,
        (EcuInvState::from_byte(a) is Unknown) <==> (a != 3 && a != 4),
        (EcuResetCause::from_byte(a) is Other) <==> a > 6,
        (UdvAsState::from_byte(a) is Other) <==> a > 4,
        (UdvEbsInit::from_byte(a) is Other) <==> a > 8,
        (UdvAssi::from_byte(a) is Other) <==> a > 4,
{
}

/// The signed uDV state bytes decode losslessly too.
pub proof fn lemma_signed_state_bytes_lossless(a: i8, b: i8)
    ensures
        UdvResStatus::from_byte(a) == UdvResStatus::from_byte(b) ==> a == b,
        UdvSteerMotor::from_byte(a) == UdvSteerMotor::from_byte(b) ==> a == b,
        (UdvResStatus::from_byte(a) is Other) <==> (a < -2 || a > 2),
        (UdvSteerMotor::from_byte(a) is Other) <==> (a < -1 || a > 1),
{
}

/// Boot jump-reason decoding is lossless as well.
pub proof fn lemma_jump_reason_lossless(a: u32, b: u32)
    ensures
        JumpReason::from_u32(a) == JumpReason::from_u32(b) ==> a == b,
        (JumpReason::from_u32(a) is Unknown) <==> (a != 0 && a != 0x4A55_4D50 && a != 0x4D41_4E55),
{
}

/// Pack geometry and stream layout agree: 95 cells fill 24 four-slot
/// frames with one sentinel slot to spare, 200 NTCs fill 25 eight-slot
/// frames exactly, the balance mask spans 64 + 31 bits, each ID range has
/// as many IDs as frames, and a scan is 58 frames.
pub proof fn lemma_geometry_consistent()
    ensures
        AMS_NUM_CELLS == 95,
        AMS_NUM_NTCS == 200,
        AMS_CELLV_NUM_FRAMES == (AMS_CELLV_LAST_ID - AMS_CELLV_BASE_ID + 1) as usize,
        AMS_NTC_NUM_FRAMES == (AMS_NTC_LAST_ID - AMS_NTC_BASE_ID + 1) as usize,
        AMS_DIAG_NUM_FRAMES == (AMS_DIAG_LAST_ID - AMS_DIAG_BASE_ID + 1) as usize,
        AMS_CELLV_NUM_FRAMES * 4 == AMS_NUM_CELLS + 1,
        AMS_NTC_NUM_FRAMES * 8 == AMS_NUM_NTCS,
        64 + 31 == AMS_NUM_CELLS,
        AMS_NUM_ICS == 10,
        AMS_EXPECTED_FRAMES_PER_SCAN == 58,
        AMS_FSM_STATUS_ID == AMS_DIAG_BASE_ID,
        AMS_PER_IC_PEC_HI_ID == AMS_DIAG_LAST_ID,
{
}

/// Every cell index of the pack is covered by exactly one slot of exactly
/// one cell-voltage frame, and the only uncovered slot is the sentinel
/// slot 3 of the last frame.
pub proof fn lemma_cell_slots_cover_pack(p: Seq<u8>, id: u16, slot: int)
    requires
        p.len() >= 8,
        AMS_CELLV_BASE_ID <= id <= AMS_CELLV_LAST_ID,
        0 <= slot < 4,
    ensures
        decode_spec(id, p) matches Some(PitDiagFrame::CellVoltage(c)) && {
            &&& c.first_cell == (id - AMS_CELLV_BASE_ID) * 4
            &&& ((c.first_cell + slot < AMS_NUM_CELLS) <==> !(id == AMS_CELLV_LAST_ID && slot == 3))
        },
{
}

} // verus!
