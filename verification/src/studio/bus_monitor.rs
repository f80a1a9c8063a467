//! The generic bus monitor of the desktop front-end: its request and event
//! records, the candump line it captures per frame, and the decisions its
//! reader task makes (poll interval, capture progress cadence, which
//! `recv` failures end the session).
use vstd::prelude::*;
use crate::pit_diag::{self as ams, ecu};
use crate::cli::replay::candump_line_spec;
use crate::protocol::CanFrame;
use crate::studio::recv_errors::{benign_lowered, is_benign_recv_error, str_lowercase};
use crate::text::{dec, hex_bytes_text, hex_upper, pad_left, push_dec, push_hex_bytes, push_hex_upper};

verus! {

/// Start request from the front-end.
pub struct BusMonitorRequest {
    pub interface: String,
    pub channel: Option<String>,
    pub bitrate: u32,
    /// Per-recv timeout; values under 20 ms are raised to 20 ms.
    pub poll_timeout_ms: u32,
}

/// Capture-start request: the file the candump lines go to.
pub struct CaptureStartRequest {
    pub path: String,
}

/// One received frame, stamped with milliseconds since the session began.
#[derive(Clone, Copy, Debug, PartialEq, Eq)]
pub struct BusMonitorFrame {
    pub ts_ms: u64,
    pub id: u16,
    pub dlc: u8,
    /// The full eight-byte buffer; the front-end shows the first `dlc`.
    pub data: [u8; 8],
}

impl BusMonitorFrame {
    /// The event for a frame received `ts_ms` after the session started.
    pub fn from_frame(ts_ms: u64, frame: &CanFrame) -> (r: BusMonitorFrame)
        ensures
            r == (BusMonitorFrame { ts_ms, id: frame.id, dlc: frame.len, data: frame.data }),
    {
        BusMonitorFrame { ts_ms, id: frame.id, dlc: frame.len, data: frame.data }
    }
}

/// Lifecycle status of a monitor session.
#[derive(Clone, Debug, PartialEq)]
pub enum BusMonitorStatus {
    Started,
    Stopped,
    /// The adapter went away mid-session; the front-end offers Start again.
    Disconnected,
    Error { message: String },
}

/// Capture lifecycle and progress.
#[derive(Clone, Debug, PartialEq)]
pub enum BusMonitorCaptureEvent {
    Started { path: String },
    Stopped { path: String, frames: u64 },
    Progress { path: String, frames: u64 },
    Error { message: String },
}

/// The poll interval a request asks for, at least 20 ms.
pub fn poll_timeout_ms(requested: u32) -> (ms: u64)
    ensures
        ms == if requested < 20 { 20 } else { requested as int },
{
    if requested < 20 {
        20
    } else {
        requested as u64
    }
}

/// The channel name written into capture lines: the requested channel,
/// or `can0` when none (or an empty one) was given.
pub fn capture_channel(channel: Option<&str>) -> (s: String)
    ensures
        match channel {
            Some(c) if c@.len() > 0 => s@ == c@,
            _ => s@ == "can0"@,
        },
{
    match channel {
        Some(c) => {
            if c.unicode_len() > 0 {
                String::from_str(c)
            } else {
                String::from_str("can0")
            }
        },
        None => String::from_str("can0"),
    }
}

/// The payload bytes a capture line shows: the first `len` bytes, at most eight.
pub open spec fn captured_bytes(frame: CanFrame) -> Seq<u8> {
    frame.data@.take(if frame.len <= 8 { frame.len as int } else { 8 })
}

/// One candump line: `(secs.micros) channel ID#DATA` and a newline.
pub open spec fn capture_line_spec(channel: Seq<char>, secs: u64, micros: u32, frame: CanFrame) -> Seq<char> {
    "("@ + dec(secs as nat) + "."@ + pad_left(dec(micros as nat), 6, '0') + ") "@ + channel + " "@
        + hex_upper(frame.id as nat, 3) + "#"@ + hex_bytes_text(captured_bytes(frame), true, false)
        + "\n"@
}

/// Render the capture line for a frame received at wall-clock `secs.micros`.
pub fn capture_line(channel: &str, secs: u64, micros: u32, frame: &CanFrame) -> (s: String)
    ensures
        s@ == capture_line_spec(channel@, secs, micros, *frame),
{
    let mut s = String::from_str("(");
    push_dec(&mut s, secs);
    s.append(".");
    crate::text::push_padded(&mut s, micros as u64, 10, true, 6, '0');
    s.append(") ");
    s.append(channel);
    s.append(" ");
    push_hex_upper(&mut s, frame.id as u64, 3);
    s.append("#");
    let n: usize = if frame.len <= 8 { frame.len as usize } else { 8 };
    let bytes = frame.data.as_slice();
    let mut shown: Vec<u8> = Vec::new();
    let mut i: usize = 0;
    while i < n
        invariant
            n <= 8,
            bytes@ == frame.data@,
            i <= n,
            shown@ == frame.data@.take(i as int),
        decreases n - i,
    {
        shown.push(bytes[i]);
        i = i + 1;
        assert(shown@ =~= frame.data@.take(i as int));
    }
    push_hex_bytes(&mut s, shown.as_slice(), true, false);
    s.append("\n");
    assert(s@ =~= capture_line_spec(channel@, secs, micros, *frame));
    s
}

/// Rate limiter for capture-progress events: at most one per 100 captured
/// frames or per 500 ms, whichever comes first.
pub struct ProgressGate {
    /// Frames captured since the last progress event (always below 100).
    pub since_last: u64,
}

impl ProgressGate {
    pub open spec fn wf(&self) -> bool {
        self.since_last < 100
    }

    /// A gate with nothing captured yet.
    pub fn new() -> (g: ProgressGate)
        ensures
            g.wf(),
            g.since_last == 0,
    {
        ProgressGate { since_last: 0 }
    }

    /// Count one captured frame, `elapsed_ms` after the last progress
    /// event; `true` when a progress event (and a flush) is due now, in
    /// which case the count starts over.
    pub fn record(&mut self, elapsed_ms: u64) -> (emit: bool)
        requires
            old(self).wf(),
        ensures
            final(self).wf(),
            emit == (old(self).since_last + 1 >= 100 || elapsed_ms >= 500),
            final(self).since_last == if emit { 0 } else { old(self).since_last + 1 },
    {
        let n = self.since_last + 1;
        if n >= 100 || elapsed_ms >= 500 {
            self.since_last = 0;
            true
        } else {
            self.since_last = n;
            false
        }
    }
}

/// What the reader task does after a failed `recv`.
#[derive(Clone, Debug, PartialEq)]
pub enum RecvFailureAction {
    /// An empty poll window: keep polling.
    KeepPolling,
    /// The adapter is gone: close any capture, report `Disconnected`, stop.
    Disconnected,
    /// Report the error's text and stop.
    Stop { message: String },
}

/// Classify a failed `recv`: `disconnected` when the transport reported the
/// adapter gone, otherwise by the error's text.
pub fn recv_failure_action(disconnected: bool, msg: &str) -> (a: RecvFailureAction)
    ensures
        disconnected ==> a == RecvFailureAction::Disconnected,
        !disconnected && benign_lowered(str_lowercase(msg@)) ==> a == RecvFailureAction::KeepPolling,
        !disconnected && !benign_lowered(str_lowercase(msg@)) ==> (a matches RecvFailureAction::Stop {
            message,
        } && message@ == msg@),
{
    if disconnected {
        RecvFailureAction::Disconnected
    } else if is_benign_recv_error(msg) {
        RecvFailureAction::KeepPolling
    } else {
        RecvFailureAction::Stop { message: String::from_str(msg) }
    }
}

/// The frames the monitor sends to arm (or disarm) pit-diag on whichever
/// board is on the bus: the AMS frame, then the ECU frame.
pub fn monitor_arm_frames(enable: bool) -> (v: Vec<CanFrame>)
    ensures
        v@.len() == 2,
        v@[0].id == ams::AMS_ARM_ID && v@[0].payload_view() == ams::arm_payload(enable),
        v@[1].id == ecu::ECU_ARM_ID && v@[1].payload_view() == ams::arm_payload(enable),
        v@[0].wf() && v@[1].wf(),
{
    let mut v: Vec<CanFrame> = Vec::new();
    v.push(ams::build_arm_frame(enable));
    v.push(ecu::build_arm_frame(enable));
    v
}

/// Arming from the monitor needs a running session.
pub fn arm_requires_running(running: bool) -> (r: Result<(), String>)
    ensures
        r is Ok <==> running,
        r matches Err(m) ==> m@ == "start the bus monitor before arming pit-diag"@,
{
    if running {
        Ok(())
    } else {
        Err(String::from_str("start the bus monitor before arming pit-diag"))
    }
}

/// Message when the monitor's transmit queue is gone.
pub fn monitor_stopped_message() -> (m: String)
    ensures
        m@ == "bus monitor stopped — restart it and try again"@,
{
    String::from_str("bus monitor stopped — restart it and try again")
}

/// Capturing needs a running session.
pub fn capture_requires_running(running: bool) -> (r: Result<(), String>)
    ensures
        r is Ok <==> running,
        r matches Err(m) ==> m@ == "monitor is not running — start it first"@,
{
    if running {
        Ok(())
    } else {
        Err(String::from_str("monitor is not running — start it first"))
    }
}

/// A capture line is the candump line of the replay tool plus a newline:
/// for a classic frame with an 11-bit identifier the bus monitor writes
/// exactly what `cf replay` reads and writes.
pub proof fn lemma_capture_is_candump(channel: Seq<char>, secs: u64, micros: u32, frame: CanFrame)
    requires
        frame.wf(),
        frame.id <= 0x7FF,
    ensures
        capture_line_spec(channel, secs, micros, frame) == candump_line_spec(frame, channel, secs, micros) + "\n"@,
{
    let id = frame.id;
    assert(id & 0x7FF == id) by (bit_vector)
        requires
            id <= 0x7FF,
    ;
    assert(captured_bytes(frame) =~= frame.payload_view());
}

} // verus!
