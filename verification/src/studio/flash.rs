//! Flashing from the desktop front-end: the request, the stream of events
//! it shows while a run progresses, the final report, and the decisions
//! taken around the engine (build step, working directory, interface,
//! flash configuration, image base, jump).
use vstd::prelude::*;
use crate::bootloader_fetch::str_eq;
use crate::cli::InterfaceType;
use crate::firmware::BL_APP_BASE;
use crate::flash::{FlashConfig, FlashEvent, FlashReport, SectorRole, DEFAULT_WRITE_CHUNK};
use crate::parse::{trim, trim_spec};
use crate::text::{dec_int, hex_upper, push_hex_upper, push_int};

verus! {

/// A flash request from the front-end.
pub struct FlashRequest {
    pub artifact_path: String,
    /// Shell command run before loading the artifact, if any.
    pub build_command: Option<String>,
    /// Working directory of the build; the artifact's directory when absent.
    pub build_cwd: Option<String>,
    pub interface: String,
    pub channel: Option<String>,
    pub bitrate: u32,
    pub node_id: Option<u8>,
    pub timeout_ms: u32,
    pub keepalive_ms: u32,
    pub diff: bool,
    pub dry_run: bool,
    pub verify_after: bool,
    pub final_commit: bool,
    pub jump: bool,
}

/// The report of a finished run, as the front-end receives it.
#[derive(Clone, Debug, PartialEq)]
pub struct JsonReport {
    pub sectors_erased: Vec<u8>,
    pub sectors_written: Vec<u8>,
    pub sectors_skipped: Vec<u8>,
    /// `0x` and eight upper-case hex digits.
    pub crc32: String,
    pub size: u32,
    pub version: u32,
    pub duration_ms: u128,
}

/// Progress of a run (build output included) as the front-end receives it.
#[derive(Clone, Debug, PartialEq)]
pub enum FlashStreamEvent {
    /// One line of build output; `stream` is `info`, `stdout` or `stderr`.
    BuildLine { stream: &'static str, text: String },
    BuildExited { code: Option<i32> },
    /// `role` is `skip` or `write`.
    Planning { sector: u8, role: &'static str },
    Erased { sector: u8 },
    Written { sector: u8, bytes: u32, total: u32 },
    /// `crc` as `0x` and eight upper-case hex digits.
    Verified { sector: u8, crc: String },
    Committing,
    Done { report: JsonReport },
}

/// `0x` and eight upper-case hex digits.
pub open spec fn crc_text(crc: u32) -> Seq<char> {
    "0x"@ + hex_upper(crc as nat, 8)
}

fn crc_string(crc: u32) -> (s: String)
    ensures
        s@ == crc_text(crc),
{
    let mut s = String::from_str("0x");
    push_hex_upper(&mut s, crc as u64, 8);
    s
}

fn copy_bytes(v: &Vec<u8>) -> (r: Vec<u8>)
    ensures
        r@ == v@,
{
    let mut r: Vec<u8> = Vec::new();
    let mut i: usize = 0;
    while i < v.len()
        invariant
            i <= v@.len(),
            r@ == v@.take(i as int),
        decreases v@.len() - i,
    {
        r.push(v[i]);
        i = i + 1;
        assert(r@ =~= v@.take(i as int));
    }
    assert(v@.take(v@.len() as int) =~= v@);
    r
}

impl JsonReport {
    /// The front-end's copy of an engine report; the run time is given in
    /// whole milliseconds.
    pub fn from_report(r: &FlashReport) -> (j: JsonReport)
        ensures
            j.sectors_erased@ == r.sectors_erased@,
            j.sectors_written@ == r.sectors_written@,
            j.sectors_skipped@ == r.sectors_skipped@,
            j.crc32@ == crc_text(r.crc32),
            j.size == r.size,
            j.version == r.version,
            j.duration_ms == r.duration.millis(),
    {
        JsonReport {
            sectors_erased: copy_bytes(&r.sectors_erased),
            sectors_written: copy_bytes(&r.sectors_written),
            sectors_skipped: copy_bytes(&r.sectors_skipped),
            crc32: crc_string(r.crc32),
            size: r.size,
            version: r.version,
            duration_ms: r.duration.as_millis(),
        }
    }
}

/// The front-end event for an engine event.
pub fn convert_event(e: &FlashEvent) -> (r: FlashStreamEvent)
    ensures
        match *e {
            FlashEvent::PlanningSector { sector, role } => r == FlashStreamEvent::Planning {
                sector,
                role: if role == SectorRole::Skip { "skip" } else { "write" },
            },
            FlashEvent::Erased { sector } => r == FlashStreamEvent::Erased { sector },
            FlashEvent::ChunkWritten { sector, bytes, total } => r == FlashStreamEvent::Written { sector, bytes, total },
            FlashEvent::SectorVerified { sector, crc } => (r matches FlashStreamEvent::Verified { sector: s, crc: c }
                && s == sector && c@ == crc_text(crc)),
            FlashEvent::Committing => r == FlashStreamEvent::Committing,
            FlashEvent::Done { report } => (r matches FlashStreamEvent::Done { report: j } && j.crc32@ == crc_text(
                report.crc32,
            ) && j.size == report.size && j.version == report.version && j.sectors_erased@
                == report.sectors_erased@ && j.sectors_written@ == report.sectors_written@
                && j.sectors_skipped@ == report.sectors_skipped@ && j.duration_ms == report.duration.millis()),
        },
{
    match e {
        FlashEvent::PlanningSector { sector, role } => FlashStreamEvent::Planning {
            sector: *sector,
            role: match role {
                SectorRole::Skip => "skip",
                SectorRole::Write => "write",
            },
        },
        FlashEvent::Erased { sector } => FlashStreamEvent::Erased { sector: *sector },
        FlashEvent::ChunkWritten { sector, bytes, total } => FlashStreamEvent::Written {
            sector: *sector,
            bytes: *bytes,
            total: *total,
        },
        FlashEvent::SectorVerified { sector, crc } => FlashStreamEvent::Verified {
            sector: *sector,
            crc: crc_string(*crc),
        },
        FlashEvent::Committing => FlashStreamEvent::Committing,
        FlashEvent::Done { report } => FlashStreamEvent::Done { report: JsonReport::from_report(report) },
    }
}

/// The interface a request names, or the message for any other name.
pub open spec fn interface_spec(s: Seq<char>) -> Result<InterfaceType, Seq<char>> {
    if s == "slcan"@ {
        Ok(InterfaceType::Slcan)
    } else if s == "socketcan"@ {
        Ok(InterfaceType::Socketcan)
    } else if s == "pcan"@ {
        Ok(InterfaceType::Pcan)
    } else if s == "vector"@ {
        Ok(InterfaceType::Vector)
    } else if s == "virtual"@ {
        Ok(InterfaceType::Virtual)
    } else {
        Err("unknown interface: "@ + s)
    }
}

/// Parse a request's interface name.
pub fn parse_interface(s: &str) -> (r: Result<InterfaceType, String>)
    ensures
        match (r, interface_spec(s@)) {
            (Ok(a), Ok(b)) => a == b,
            (Err(m), Err(t)) => m@ == t,
            _ => false,
        },
{
    if str_eq(s, "slcan") {
        Ok(InterfaceType::Slcan)
    } else if str_eq(s, "socketcan") {
        Ok(InterfaceType::Socketcan)
    } else if str_eq(s, "pcan") {
        Ok(InterfaceType::Pcan)
    } else if str_eq(s, "vector") {
        Ok(InterfaceType::Vector)
    } else if str_eq(s, "virtual") {
        Ok(InterfaceType::Virtual)
    } else {
        let mut m = String::from_str("unknown interface: ");
        m.append(s);
        Err(m)
    }
}

/// The node a request addresses: the requested one, else `0x3`.
pub fn target_node(node_id: Option<u8>) -> (n: u8)
    ensures
        n == match node_id {
            Some(v) => v,
            None => 3u8,
        },
{
    match node_id {
        Some(v) => v,
        None => 3,
    }
}

/// The engine configuration of a request: the default chunk size, and a
/// final commit only when asked for and not a dry run.
pub fn flash_config(diff: bool, dry_run: bool, verify_after: bool, final_commit: bool) -> (c: FlashConfig)
    ensures
        c == (FlashConfig {
            diff,
            dry_run,
            verify_after,
            write_chunk_size: DEFAULT_WRITE_CHUNK,
            final_commit: final_commit && !dry_run,
        }),
{
    FlashConfig { diff, dry_run, verify_after, write_chunk_size: DEFAULT_WRITE_CHUNK, final_commit: final_commit && !dry_run }
}

/// Jump into the new application only when asked for and not a dry run.
pub fn should_jump(jump: bool, dry_run: bool) -> (j: bool)
    ensures
        j == (jump && !dry_run),
{
    jump && !dry_run
}

/// The image must start at the application base.
pub fn check_image_base(base: u32) -> (r: Result<(), String>)
    ensures
        r is Ok <==> base == BL_APP_BASE,
        r matches Err(m) ==> m@ == "firmware base 0x"@ + hex_upper(base as nat, 8) + " ≠ BL_APP_BASE (0x"@
            + hex_upper(BL_APP_BASE as nat, 8) + ")"@,
{
    if base == BL_APP_BASE {
        Ok(())
    } else {
        let mut m = String::from_str("firmware base 0x");
        push_hex_upper(&mut m, base as u64, 8);
        m.append(" ≠ BL_APP_BASE (0x");
        push_hex_upper(&mut m, BL_APP_BASE as u64, 8);
        m.append(")");
        Err(m)
    }
}

/// The build command a flash request runs first: its trimmed text, when
/// one is given and not blank.
pub fn build_step(build_command: Option<&str>) -> (r: Option<String>)
    ensures
        match build_command {
            Some(c) if trim_spec(c@).len() > 0 => r matches Some(t) && t@ == trim_spec(c@),
            _ => r is None,
        },
{
    match build_command {
        Some(c) => {
            let t = trim(c);
            if t.unicode_len() > 0 {
                Some(String::from_str(t))
            } else {
                None
            }
        },
        None => None,
    }
}

/// What `Path::parent` gives for a path: the path without its last
/// component, or nothing for a root or an empty path.
pub uninterp spec fn path_parent_text(p: Seq<char>) -> Option<Seq<char>>;

/// `Path::parent` of `p`, as text.
#[verifier::external_body]
fn path_parent(p: &str) -> (r: Option<String>)
    ensures
        match r {
            Some(s) => path_parent_text(p@) == Some(s@),
            None => path_parent_text(p@) is None,
        },
{
    match std::path::Path::new(p).parent() {
        Some(q) => Some(q.to_string_lossy().into_owned()),
        None => None,
    }
}

/// The build's working directory: the requested one when it is not blank
/// (taken as given), else the artifact's parent directory, else `.`.
pub fn resolve_build_cwd(build_cwd: Option<&str>, artifact_path: &str) -> (r: String)
    ensures
        match build_cwd {
            Some(c) if trim_spec(c@).len() > 0 => r@ == c@,
            _ => match path_parent_text(artifact_path@) {
                Some(p) => r@ == p,
                None => r@ == "."@,
            },
        },
{
    if let Some(c) = build_cwd {
        if trim(c).unicode_len() > 0 {
            return String::from_str(c);
        }
    }
    match path_parent(artifact_path) {
        Some(p) => p,
        None => String::from_str("."),
    }
}

/// What a stand-alone build runs, and where: the trimmed command (an error
/// when it is blank) and the trimmed working directory, `.` when absent or
/// blank.
pub fn build_only_plan(command: &str, cwd: Option<&str>) -> (r: Result<(String, String), String>)
    ensures
        trim_spec(command@).len() == 0 <==> r is Err,
        r matches Err(m) ==> m@ == "build command is empty"@,
        r matches Ok((c, d)) ==> c@ == trim_spec(command@) && d@ == match cwd {
            Some(p) if trim_spec(p@).len() > 0 => trim_spec(p@),
            _ => "."@,
        },
{
    let cmd = trim(command);
    if cmd.unicode_len() == 0 {
        return Err(String::from_str("build command is empty"));
    }
    let dir = match cwd {
        Some(p) => {
            let t = trim(p);
            if t.unicode_len() > 0 {
                String::from_str(t)
            } else {
                String::from_str(".")
            }
        },
        None => String::from_str("."),
    };
    Ok((String::from_str(cmd), dir))
}

/// The `$ COMMAND` line echoed before a build's output.
pub fn build_banner(command: &str) -> (s: String)
    ensures
        s@ == "$ "@ + command@,
{
    let mut s = String::from_str("$ ");
    s.append(command);
    s
}

/// `{:?}` of an optional exit code.
pub open spec fn exit_code_debug(code: Option<i32>) -> Seq<char> {
    match code {
        Some(c) => "Some("@ + dec_int(c as int) + ")"@,
        None => "None"@,
    }
}

/// The outcome of a build: success, or the exit code in the message.
pub fn build_exit_result(success: bool, code: Option<i32>) -> (r: Result<(), String>)
    ensures
        r is Ok <==> success,
        r matches Err(m) ==> m@ == "build command exited with code "@ + exit_code_debug(code),
{
    if success {
        return Ok(());
    }
    let mut m = String::from_str("build command exited with code ");
    match code {
        Some(c) => {
            m.append("Some(");
            push_int(&mut m, c as i64);
            m.append(")");
        },
        None => m.append("None"),
    }
    assert(m@ =~= "build command exited with code "@ + exit_code_debug(code));
    Err(m)
}

} // verus!
