//! Live-data streaming for the desktop front-end: the request, the events
//! the stream emits, and the checks made before a stream starts.
use vstd::prelude::*;
use crate::text::{dec, hex_upper, push_dec, push_hex_upper};

verus! {

/// A live-data start request.
pub struct LiveDataRequest {
    pub interface: String,
    pub channel: Option<String>,
    pub bitrate: u32,
    pub node_id: Option<u8>,
    pub timeout_ms: u32,
    /// Snapshot rate, 1..=50 Hz.
    pub rate_hz: u8,
}

/// One bootloader live-data snapshot, flags decoded.
#[derive(Clone, Debug, PartialEq)]
pub struct SnapshotPayload {
    pub uptime_ms: u32,
    pub frames_rx: u16,
    pub frames_tx: u16,
    pub nacks_sent: u16,
    pub dtc_count: u16,
    pub last_dtc_code: u16,
    pub flags: u8,
    pub last_opcode: u8,
    pub last_flash_addr: u32,
    pub isotp_rx_progress: u32,
    pub session_age_ms: u32,
    pub session_active: bool,
    pub valid_app_present: bool,
    pub log_streaming: bool,
    pub livedata_streaming: bool,
    pub wrp_protected: bool,
}

/// What the stream emits: a status change (`running` / `stopped`) or a snapshot.
#[derive(Clone, Debug, PartialEq)]
pub enum LiveDataStreamEvent {
    Status { status: &'static str, message: Option<String> },
    Snapshot(SnapshotPayload),
}

/// The rate must lie in 1..=50 Hz.
pub fn check_rate_hz(rate_hz: u8) -> (r: Result<(), String>)
    ensures
        r is Ok <==> 1 <= rate_hz <= 50,
        r matches Err(m) ==> m@ == "rateHz must be in 1..=50 (got "@ + dec(rate_hz as nat) + ")"@,
{
    if 1 <= rate_hz && rate_hz <= 50 {
        Ok(())
    } else {
        let mut m = String::from_str("rateHz must be in 1..=50 (got ");
        push_dec(&mut m, rate_hz as u64);
        m.append(")");
        Err(m)
    }
}

/// Only one stream may run at a time.
pub fn check_not_running(running: bool) -> (r: Result<(), String>)
    ensures
        r is Ok <==> !running,
        r matches Err(m) ==> m@ == "live-data stream already running — stop it first"@,
{
    if running {
        Err(String::from_str("live-data stream already running — stop it first"))
    } else {
        Ok(())
    }
}

/// The `running` status event announcing the stream.
pub fn running_event(rate_hz: u8) -> (e: LiveDataStreamEvent)
    ensures
        e matches LiveDataStreamEvent::Status { status, message } && status@ == "running"@ && (message matches Some(
            m,
        ) && m@ == "streaming @ "@ + dec(rate_hz as nat) + " Hz"@),
{
    let mut m = String::from_str("streaming @ ");
    push_dec(&mut m, rate_hz as u64);
    m.append(" Hz");
    LiveDataStreamEvent::Status { status: "running", message: Some(m) }
}

/// The `stopped` status event sent when the stream ends.
pub fn stopped_event() -> (e: LiveDataStreamEvent)
    ensures
        e matches LiveDataStreamEvent::Status { status, message } && status@ == "stopped"@ && message is None,
{
    LiveDataStreamEvent::Status { status: "stopped", message: None }
}

/// The error when the device NACKs `LIVE_DATA_START`: the rejected
/// opcode in two upper-case hex digits and the NACK code's text `code`.
pub fn start_nack_message(rejected_opcode: u8, code: &str) -> (m: String)
    ensures
        m@ == "device NACK'd LIVE_DATA_START (opcode 0x"@ + hex_upper(rejected_opcode as nat, 2) + "): "@ + code@,
{
    let mut m = String::from_str("device NACK'd LIVE_DATA_START (opcode 0x");
    push_hex_upper(&mut m, rejected_opcode as u64, 2);
    m.append("): ");
    m.append(code);
    m
}

/// The error when the device answers `LIVE_DATA_START` with something
/// other than an ACK or a NACK; `kind` names the reply.
pub fn start_unexpected_message(kind: &str) -> (m: String)
    ensures
        m@ == "unexpected reply to LIVE_DATA_START: "@ + kind@,
{
    let mut m = String::from_str("unexpected reply to LIVE_DATA_START: ");
    m.append(kind);
    m
}

/// The error when sending `LIVE_DATA_START` fails; `err` is the session
/// error's text.
pub fn start_send_message(err: &str) -> (m: String)
    ensures
        m@ == "send LIVE_DATA_START: "@ + err@,
{
    let mut m = String::from_str("send LIVE_DATA_START: ");
    m.append(err);
    m
}

} // verus!
