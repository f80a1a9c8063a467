//! Command-line surface shared by the subcommands: exit-code hints,
//! argument records and the argument parsers.
pub mod adapters;
pub mod candump_laws;
pub mod config;
pub mod diagnose;
pub mod discover;
pub mod flash;
pub mod flash_profile;
pub mod json_line_laws;
pub mod logs;
pub mod pit_diag;
pub mod pit_diag_line_laws;
pub mod pit_diag_lines;
pub mod provision;
pub mod replay;
pub mod send_raw;
pub mod swd_flash;
pub mod verify;

use vstd::prelude::*;
use crate::parse::{int_error_message, parse_prefixed_uint, prefixed_uint, same_result, IntErrorKind};
use crate::text::{dec, hex_upper};

verus! {

/// Marker a subcommand attaches to its error so the process exits with a
/// specific code from the requirements table instead of 99.
#[derive(Clone, Copy, Debug, PartialEq, Eq, Structural)]
pub enum ExitCodeHint {
    FlashError,
    VerifyMismatch,
    ProtectionViolation,
    DeviceNotFound,
    WrpNotApplied,
    InputFileError,
    AdapterMissing,
    /// Interrupted by the user (128 + SIGINT).
    Interrupted,
}

impl ExitCodeHint {
    /// Exit code of each hint.
    pub open spec fn code_spec(self) -> u8 {
        match self {
            ExitCodeHint::FlashError => 1,
            ExitCodeHint::VerifyMismatch => 2,
            ExitCodeHint::ProtectionViolation => 3,
            ExitCodeHint::DeviceNotFound => 4,
            ExitCodeHint::WrpNotApplied => 7,
            ExitCodeHint::InputFileError => 8,
            ExitCodeHint::AdapterMissing => 9,
            ExitCodeHint::Interrupted => 130,
        }
    }

    /// Byte-valued exit code this hint maps to.
    pub fn exit_code(self) -> (r: u8)
        ensures
            r == self.code_spec(),
    {
        match self {
            ExitCodeHint::FlashError => 1,
            ExitCodeHint::VerifyMismatch => 2,
            ExitCodeHint::ProtectionViolation => 3,
            ExitCodeHint::DeviceNotFound => 4,
            ExitCodeHint::WrpNotApplied => 7,
            ExitCodeHint::InputFileError => 8,
            ExitCodeHint::AdapterMissing => 9,
            ExitCodeHint::Interrupted => 130,
        }
    }
}

/// Distinct hints map to distinct exit codes, none of them 0 (success)
/// or 99 (the generic fallback).
pub proof fn lemma_exit_codes_distinct(a: ExitCodeHint, b: ExitCodeHint)
    ensures
        a.code_spec() == b.code_spec() ==> a == b,
        a.code_spec() != 0,
        a.code_spec() != 99,
{
}


impl ExitCodeHint {
    /// Human-readable description of each hint.
    pub open spec fn message_spec(self) -> Seq<char> {
        match self {
            ExitCodeHint::FlashError => "flash or write error"@,
            ExitCodeHint::VerifyMismatch => "verification mismatch"@,
            ExitCodeHint::ProtectionViolation => "protection violation (address in BL sector)"@,
            ExitCodeHint::DeviceNotFound => "device not found / timeout"@,
            ExitCodeHint::WrpNotApplied => "WRP not applied"@,
            ExitCodeHint::InputFileError => "input file error"@,
            ExitCodeHint::AdapterMissing => "adapter not found or SDK missing"@,
            ExitCodeHint::Interrupted => "interrupted by user (SIGINT)"@,
        }
    }

    /// Human-readable description of the hint.
    pub fn message(self) -> (m: &'static str)
        ensures
            m@ == self.message_spec(),
    {
        match self {
            ExitCodeHint::FlashError => "flash or write error",
            ExitCodeHint::VerifyMismatch => "verification mismatch",
            ExitCodeHint::ProtectionViolation => "protection violation (address in BL sector)",
            ExitCodeHint::DeviceNotFound => "device not found / timeout",
            ExitCodeHint::WrpNotApplied => "WRP not applied",
            ExitCodeHint::InputFileError => "input file error",
            ExitCodeHint::AdapterMissing => "adapter not found or SDK missing",
            ExitCodeHint::Interrupted => "interrupted by user (SIGINT)",
        }
    }
}

/// CAN backend family.
#[derive(Clone, Copy, Debug, PartialEq, Eq, Structural)]
pub enum InterfaceType {
    /// SLCAN serial adapters (CANable and compatible).
    Slcan,
    /// Linux SocketCAN.
    Socketcan,
    /// PEAK PCAN.
    Pcan,
    /// Vector XL driver library.
    Vector,
    /// In-process virtual bus.
    Virtual,
}

/// Flags every subcommand sees.
#[derive(Clone, Debug)]
pub struct GlobalFlags {
    pub interface: InterfaceType,
    pub channel: Option<String>,
    pub bitrate: u32,
    pub node_id: Option<u8>,
    pub timeout_ms: u32,
    pub json: bool,
    pub log_path: Option<String>,
    pub verbose: bool,
    pub operator: Option<String>,
}

/// What `--node-id` accepts: a decimal or `0x` hex number of 4 bits.
pub open spec fn node_id_spec(raw: Seq<char>) -> Result<u8, Seq<char>> {
    match prefixed_uint(raw, 255) {
        Err(k) => Err("invalid node id '"@ + raw + "': "@ + k.message_spec()),
        Ok(n) => if n > 15 {
            Err("node id must fit in 4 bits (0x0..0xF); got 0x"@ + hex_upper(n, 0))
        } else {
            Ok(n as u8)
        },
    }
}

/// Parse a node id from `0x0A`-style hex or plain decimal; it must fit in
/// four bits.
pub fn parse_node_id(raw: &str) -> (r: Result<u8, String>)
    ensures
        same_result(r, node_id_spec(raw@)),
{
    match parse_prefixed_uint(raw, 255) {
        Err(k) => Err(int_error_message("invalid node id '", raw, k)),
        Ok(n) => {
            if n > 15 {
                let mut m = String::from_str("node id must fit in 4 bits (0x0..0xF); got 0x");
                crate::text::push_hex_upper(&mut m, n, 0);
                Err(m)
            } else {
                Ok(n as u8)
            }
        },
    }
}

/// The parsed command line: global flags and one subcommand.
pub struct Cli {
    pub global: GlobalFlags,
    pub command: Command,
}

/// The subcommands.
pub enum Command {
    Flash(flash::FlashArgs),
    Verify(verify::VerifyArgs),
    Discover(discover::DiscoverArgs),
    Diagnose(diagnose::DiagnoseArgs),
    Config(config::ConfigArgs),
    Replay(replay::ReplayArgs),
    SendRaw(send_raw::SendRawArgs),
    Adapters,
    SwdFlash(swd_flash::SwdFlashArgs),
}

/// Exit code of a run that failed without an [`ExitCodeHint`].
pub const GENERIC_ERROR_EXIT: u8 = 99;

/// The process exit code of a failed run: the first hint found on the
/// error's chain decides, otherwise the generic code.
pub fn failure_exit_code(hint: Option<ExitCodeHint>) -> (code: u8)
    ensures
        code == match hint {
            Some(h) => h.code_spec(),
            None => GENERIC_ERROR_EXIT,
        },
{
    match hint {
        Some(h) => h.exit_code(),
        None => GENERIC_ERROR_EXIT,
    }
}

/// Node ids are four bits: every id up to 15, written in decimal or as
/// `0x` and a hex digit, parses back to itself, and every larger byte is
/// refused in either form.
pub proof fn lemma_node_id_range(n: u8)
    ensures
        n <= 15 ==> node_id_spec(dec(n as nat)) == Ok::<u8, Seq<char>>(n),
        n <= 15 ==> node_id_spec("0x"@ + hex_upper(n as nat, 1)) == Ok::<u8, Seq<char>>(n),
        n > 15 ==> node_id_spec(dec(n as nat)) is Err,
        n > 15 ==> node_id_spec("0x"@ + hex_upper(n as nat, 1)) is Err,
{
    crate::parse::lemma_prefixed_round_trip(n as nat, 1, 255);
}

} // verus!
