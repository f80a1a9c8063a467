//! Log-file transfer from the desktop front-end: the request and result
//! records, the retry policy of the transfer, and the checks and messages
//! of a pull (the read loop itself is the one of `cli::logs`).
use vstd::prelude::*;
use crate::text::{dec, hex_upper, push_dec, push_hex_upper};

verus! {

/// Event name of the pull progress.
pub const EVENT_NAME: &'static str = "logs://progress";

/// Error text of a pull the operator cancelled.
pub const CANCELLED_MSG: &'static str = "cancelled by operator";

/// Floor of the per-command timeout: card operations are slow.
pub const LOGFS_TIMEOUT_FLOOR_MS: u32 = 2000;

/// Attempts of a retried command, the first included.
pub const LOGFS_RETRY_ATTEMPTS: u32 = 3;

/// Back-off unit between attempts; attempt `n` waits `n` units.
pub const LOGFS_RETRY_BACKOFF_MS: u64 = 60;

/// A log-service request.
pub struct LogsRequest {
    pub interface: String,
    pub channel: Option<String>,
    pub bitrate: u32,
    pub node_id: Option<u8>,
    pub timeout_ms: u32,
}

/// One file of the card's listing.
#[derive(Clone, Debug, PartialEq)]
pub struct LogFileSnapshot {
    pub index: u16,
    pub name: String,
    pub size: u32,
    pub mtime_monotonic: u32,
}

/// Progress of a pull.
#[derive(Clone, Debug, PartialEq)]
pub struct PullProgress {
    pub index: u16,
    pub name: String,
    pub received: u32,
    pub total: u32,
}

/// A finished pull: where the file went, its size, and that its CRC matched.
#[derive(Clone, Debug, PartialEq)]
pub struct PullResult {
    pub path: String,
    pub bytes: u32,
    pub crc_verified: bool,
}

/// The log service needs an explicit target board.
pub fn logs_target_node(node_id: Option<u8>) -> (r: Result<u8, String>)
    ensures
        match node_id {
            Some(n) => r == Ok::<u8, String>(n),
            None => r matches Err(m) && m@
                == "no node id selected: pick the target board (the microSD log service is AMS-only today) before listing or pulling logs"@,
        },
{
    match node_id {
        Some(n) => Ok(n),
        None => Err(
            String::from_str(
                "no node id selected: pick the target board (the microSD log service is AMS-only today) before listing or pulling logs",
            ),
        ),
    }
}

/// The command timeout of a log session: the request's, at least the floor.
pub fn logfs_timeout_ms(requested: u32) -> (ms: u32)
    ensures
        ms == if requested < LOGFS_TIMEOUT_FLOOR_MS { LOGFS_TIMEOUT_FLOOR_MS } else { requested },
{
    if requested < LOGFS_TIMEOUT_FLOOR_MS {
        LOGFS_TIMEOUT_FLOOR_MS
    } else {
        requested
    }
}

/// Whether attempt `attempt` (counted from 1) that failed is tried again:
/// only a retryable failure (a timeout or a transport error), and only
/// while attempts remain.
pub fn should_retry(attempt: u32, retryable: bool) -> (r: bool)
    ensures
        r == (attempt < LOGFS_RETRY_ATTEMPTS && retryable),
{
    attempt < LOGFS_RETRY_ATTEMPTS && retryable
}

/// How long to wait before retrying after attempt `attempt`.
pub fn retry_backoff_ms(attempt: u32) -> (ms: u64)
    ensures
        ms == LOGFS_RETRY_BACKOFF_MS * attempt,
{
    LOGFS_RETRY_BACKOFF_MS * attempt as u64
}

/// A reply must echo the opcode of the request it answers.
pub fn check_echo(what: &str, opcode: u8, expected: Option<u8>) -> (r: Result<(), String>)
    ensures
        match expected {
            Some(want) if opcode != want => r matches Err(m) && m@ == "reply to "@ + what@ + " echoes opcode 0x"@
                + hex_upper(opcode as nat, 2) + ", expected 0x"@ + hex_upper(want as nat, 2)
                + " — replies are out of step with requests"@,
            _ => r is Ok,
        },
{
    match expected {
        Some(want) => {
            if opcode != want {
                let mut m = String::from_str("reply to ");
                m.append(what);
                m.append(" echoes opcode 0x");
                push_hex_upper(&mut m, opcode as u64, 2);
                m.append(", expected 0x");
                push_hex_upper(&mut m, want as u64, 2);
                m.append(" — replies are out of step with requests");
                Err(m)
            } else {
                Ok(())
            }
        },
        None => Ok(()),
    }
}

/// A listing whose cursor does not advance would loop forever.
pub fn cursor_stuck_message(cursor: u16) -> (m: String)
    ensures
        m@ == "LOGFS_LIST cursor stuck at "@ + dec(cursor as nat),
{
    let mut m = String::from_str("LOGFS_LIST cursor stuck at ");
    push_dec(&mut m, cursor as u64);
    m
}

/// A read that returned nothing before end of file.
pub fn read_stalled_message(offset: u32) -> (m: String)
    ensures
        m@ == "LOGFS_READ stalled at offset "@ + dec(offset as nat) + " before EOF"@,
{
    let mut m = String::from_str("LOGFS_READ stalled at offset ");
    push_dec(&mut m, offset as u64);
    m.append(" before EOF");
    m
}

/// The requested file is not on the card.
pub fn missing_index_message(index: u16) -> (m: String)
    ensures
        m@ == "no log with index "@ + dec(index as nat) + " on the card"@,
{
    let mut m = String::from_str("no log with index ");
    push_dec(&mut m, index as u64);
    m.append(" on the card");
    m
}

/// The pull produced the size the node announced (zero is not checked).
pub fn check_size(name: &str, expected: u32, got: usize) -> (r: Result<(), String>)
    ensures
        r is Ok <==> (expected == 0 || got as u32 == expected),
        r matches Err(m) ==> m@ == "size mismatch for "@ + name@ + ": OPEN said "@ + dec(expected as nat)
            + " B, got "@ + dec(got as nat) + " B"@,
{
    #[verifier::truncate]
    let g: u32 = got as u32;
    if expected > 0 && g != expected {
        let mut m = String::from_str("size mismatch for ");
        m.append(name);
        m.append(": OPEN said ");
        push_dec(&mut m, expected as u64);
        m.append(" B, got ");
        push_dec(&mut m, got as u64);
        m.append(" B");
        Err(m)
    } else {
        Ok(())
    }
}

/// The node's CRC matches the CRC of the received bytes.
pub fn check_crc(name: &str, want: u32, got: u32) -> (r: Result<(), String>)
    ensures
        r is Ok <==> want == got,
        r matches Err(m) ==> m@ == "CRC mismatch for "@ + name@ + ": node 0x"@ + hex_upper(want as nat, 8)
            + ", received 0x"@ + hex_upper(got as nat, 8),
{
    if want != got {
        let mut m = String::from_str("CRC mismatch for ");
        m.append(name);
        m.append(": node 0x");
        push_hex_upper(&mut m, want as u64, 8);
        m.append(", received 0x");
        push_hex_upper(&mut m, got as u64, 8);
        Err(m)
    } else {
        Ok(())
    }
}

/// Only one transfer may use the adapter at a time.
pub fn busy_message() -> (m: String)
    ensures
        m@ == "another log transfer is already running on this adapter — wait for it to finish or cancel it"@,
{
    String::from_str("another log transfer is already running on this adapter — wait for it to finish or cancel it")
}

/// A command that timed out while the node answers as the bootloader: the
/// log service only exists in the application.
pub fn bootloader_only_message(what: &str) -> (m: String)
    ensures
        m@ == "no reply to "@ + what@
            + ": the node is alive but running the bootloader, where the log service isn't available — boot the application firmware"@,
{
    let mut m = String::from_str("no reply to ");
    m.append(what);
    m.append(": the node is alive but running the bootloader, where the log service isn't available — boot the application firmware");
    m
}

} // verus!
