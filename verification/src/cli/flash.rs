//! `flash` subcommand: the decisions around the flash engine — building
//! its configuration from the flags, the image pre-checks, the WRP
//! policy, progress rendering and the final report.
use vstd::prelude::*;
use crate::cli::config::hex_u32_spec;
use crate::cli::ExitCodeHint;
use crate::firmware::{Image, BL_APP_BASE};
use crate::flash::{Elapsed, FlashConfig, FlashEvent, FlashReport, SectorRole, DEFAULT_WRITE_CHUNK};
use crate::flash::engine::{span, FlashAction, FlashRun};
use crate::flash::laws::lemma_report_lists_disjoint;
use crate::parse::same_result;
use crate::text::{
    dec, dec_list, hex_bytes_text, hex_upper, pad_left, push_dec, push_dec_list, push_dec_right, push_hex_bytes,
    push_hex_upper,
};

verus! {

/// `flash` arguments.
#[derive(Clone, Debug)]
pub struct FlashArgs {
    /// Path of the `.elf`, `.hex` or `.bin` file.
    pub firmware: String,
    /// Load address, required for a raw binary.
    pub address: Option<u32>,
    /// Abort unless the bootloader sector is write-protected.
    pub require_wrp: bool,
    /// Latch WRP first when it is missing.
    pub apply_wrp: bool,
    pub diff: bool,
    pub no_diff: bool,
    pub dry_run: bool,
    pub verify_after: bool,
    pub no_verify_after: bool,
    pub jump: bool,
    pub no_jump: bool,
    /// Session keepalive interval in milliseconds.
    pub keepalive_ms: u32,
    /// Print a timing summary afterwards.
    pub profile: bool,
}

/// The engine configuration the flags ask for: a negative flag wins over
/// its positive twin, and a dry run sends no final commit.
pub open spec fn flash_config_spec(args: FlashArgs) -> FlashConfig {
    FlashConfig {
        diff: !args.no_diff && args.diff,
        dry_run: args.dry_run,
        verify_after: !args.no_verify_after && args.verify_after,
        write_chunk_size: DEFAULT_WRITE_CHUNK,
        final_commit: !args.dry_run,
    }
}

/// Build the engine configuration from the flags.
pub fn build_flash_config(args: &FlashArgs) -> (c: FlashConfig)
    ensures
        c == flash_config_spec(*args),
{
    let diff = if args.no_diff { false } else { args.diff };
    let verify_after = if args.no_verify_after { false } else { args.verify_after };
    FlashConfig {
        diff,
        dry_run: args.dry_run,
        verify_after,
        write_chunk_size: DEFAULT_WRITE_CHUNK,
        final_commit: !args.dry_run,
    }
}

/// Whether the flash run jumps to the application afterwards.
pub fn wants_jump(args: &FlashArgs) -> (j: bool)
    ensures
        j == (!args.no_jump && args.jump),
{
    !args.no_jump && args.jump
}

/// Parse a 32-bit address, hex (`0x08020000`) or decimal.
pub fn parse_hex_u32(raw: &str) -> (r: Result<u32, String>)
    ensures
        same_result(r, hex_u32_spec(raw@)),
{
    crate::cli::config::parse_hex_u32(raw)
}

/// Bytes as packed lower-case hex.
pub fn hex_encode(bytes: &[u8]) -> (s: String)
    ensures
        s@ == hex_bytes_text(bytes@, false, false),
{
    let mut s = String::new();
    push_hex_bytes(&mut s, bytes, false, false);
    s
}

/// Refuse an image the bootloader cannot take: outside the app region
/// is a protection violation, a base other than the app base an input
/// error.
pub fn image_precheck(image: &Image) -> (r: Result<(), ExitCodeHint>)
    ensures
        image.validate_spec() is Err ==> r == Err::<(), ExitCodeHint>(ExitCodeHint::ProtectionViolation),
        image.validate_spec() is Ok && image.base_addr != BL_APP_BASE ==> r == Err::<(), ExitCodeHint>(
            ExitCodeHint::InputFileError,
        ),
        image.validate_spec() is Ok && image.base_addr == BL_APP_BASE ==> r is Ok,
{
    if image.validate_fits_app_region().is_err() {
        return Err(ExitCodeHint::ProtectionViolation);
    }
    if image.base_addr != BL_APP_BASE {
        return Err(ExitCodeHint::InputFileError);
    }
    Ok(())
}

/// What the WRP policy does once the option bytes are known.
#[derive(Clone, Copy, Debug, PartialEq, Eq, Structural)]
pub enum WrpStep {
    /// Latch WRP on sector 0, then read the option bytes again.
    Apply,
    /// Abort: WRP is required and missing.
    Refuse,
    /// Go on with the option bytes as read.
    Proceed,
}

/// The WRP policy: apply when asked and missing, refuse when required and
/// missing, otherwise proceed.
pub fn wrp_step(sector0_protected: bool, require_wrp: bool, apply_wrp: bool) -> (s: WrpStep)
    ensures
        apply_wrp && !sector0_protected ==> s == WrpStep::Apply,
        !apply_wrp && require_wrp && !sector0_protected ==> s == WrpStep::Refuse,
        sector0_protected || (!apply_wrp && !require_wrp) ==> s == WrpStep::Proceed,
{
    if apply_wrp && !sector0_protected {
        WrpStep::Apply
    } else if require_wrp && !sector0_protected {
        WrpStep::Refuse
    } else {
        WrpStep::Proceed
    }
}

/// A flash event as one line of JSON output.
#[derive(Clone, Debug)]
pub enum JsonEvent {
    Planning { sector: u8, role: &'static str },
    Erased { sector: u8 },
    Written { sector: u8, bytes: u32, total: u32 },
    Verified { sector: u8, crc: String },
    Committing,
    Done { duration_ms: u64 },
}

/// Whole milliseconds of the run time, narrowed to `u64` as the report does.
fn duration_ms(d: &Elapsed) -> (r: u64)
    ensures
        r == d.millis_u64(),
{
    let ms = d.as_millis();
    #[verifier::truncate]
    let r = ms as u64;
    assert(r == ms % 0x1_0000_0000_0000_0000) by (bit_vector)
        requires
            r == ms as u64,
    ;
    r
}

impl JsonEvent {
    /// The JSON shape of an engine event; the run time of `Done` is
    /// given in whole milliseconds.
    pub fn from_event(ev: &FlashEvent) -> (j: JsonEvent)
        ensures
            *ev matches FlashEvent::PlanningSector { sector, role } ==> j matches JsonEvent::Planning { sector: s, role: r }
                && s == sector && r@ == (if role == SectorRole::Skip { "skip"@ } else { "write"@ }),
            *ev matches FlashEvent::Erased { sector } ==> j == (JsonEvent::Erased { sector }),
            *ev matches FlashEvent::ChunkWritten { sector, bytes, total } ==> j == (JsonEvent::Written {
                sector,
                bytes,
                total,
            }),
            *ev matches FlashEvent::SectorVerified { sector, crc } ==> j matches JsonEvent::Verified { sector: s, crc: c }
                && s == sector && c@ == "0x"@ + hex_upper(crc as nat, 8),
            *ev matches FlashEvent::Committing ==> j == JsonEvent::Committing,
            *ev matches FlashEvent::Done { report } ==> j == (JsonEvent::Done { duration_ms: report.duration.millis_u64() }),
    {
        match ev {
            FlashEvent::PlanningSector { sector, role } => JsonEvent::Planning {
                sector: *sector,
                role: match role {
                    SectorRole::Skip => "skip",
                    SectorRole::Write => "write",
                },
            },
            FlashEvent::Erased { sector } => JsonEvent::Erased { sector: *sector },
            FlashEvent::ChunkWritten { sector, bytes, total } => JsonEvent::Written {
                sector: *sector,
                bytes: *bytes,
                total: *total,
            },
            FlashEvent::SectorVerified { sector, crc } => {
                let mut c = String::from_str("0x");
                push_hex_upper(&mut c, *crc as u64, 8);
                JsonEvent::Verified { sector: *sector, crc: c }
            },
            FlashEvent::Committing => JsonEvent::Committing,
            FlashEvent::Done { report } => JsonEvent::Done { duration_ms: duration_ms(&report.duration) },
        }
    }
}

// ---- Progress rendering ----

/// Percent step between throttled progress lines when stderr is not a
/// terminal.
pub const NON_TTY_PROGRESS_STEP: u32 = 10;

/// What the progress renderer must draw for one event.
#[derive(Clone, Debug)]
pub enum ProgressOutput {
    /// Print a line (above the bars on a terminal, plainly otherwise).
    Say(String),
    /// Change the spinner's message.
    SpinnerMessage(String),
    /// Stop the spinner with a final message.
    SpinnerFinish(String),
    /// Clear any sector bar and start one for `sector` of `total` bytes.
    BarStart { sector: u8, total: u32 },
    /// Move the current bar to `bytes`.
    BarPosition(u32),
    /// Clear the current bar.
    BarFinish,
}

/// Renderer state: the sector whose bar is shown (terminal), the sector
/// and percent last printed (plain output).
#[derive(Clone, Copy, Debug)]
pub struct ProgressState {
    pub bar_sector: Option<u8>,
    pub last_percent: Option<(u8, u32)>,
}

impl ProgressState {
    /// No bar, nothing printed yet.
    pub fn new() -> (s: ProgressState)
        ensures
            s.bar_sector is None,
            s.last_percent is None,
    {
        ProgressState { bar_sector: None, last_percent: None }
    }
}

/// `Sector N: …` lines.
pub open spec fn sector_line(sector: u8, rest: Seq<char>) -> Seq<char> {
    "Sector "@ + dec(sector as nat) + rest
}

/// Percent of a sector written, 100 for an empty sector, capped at the
/// largest `u32`.
pub open spec fn percent_spec(bytes: u32, total: u32) -> nat {
    if total == 0 {
        100
    } else if (bytes as int) * 100 / (total as int) > u32::MAX {
        u32::MAX as nat
    } else {
        ((bytes as int) * 100 / (total as int)) as nat
    }
}

/// The line of a plain-output percent ping.
pub open spec fn percent_line(sector: u8, pct: nat, bytes: u32, total: u32) -> Seq<char> {
    sector_line(
        sector,
        ": "@ + pad_left(dec(pct), 3, ' ') + "% ("@ + dec(bytes as nat) + "/"@ + dec(total as nat) + " B)"@,
    )
}

/// The summary line of a finished run, given its engine time in ms.
pub open spec fn done_line(r: FlashReport, ms: nat) -> Seq<char> {
    "Done — erased "@ + dec(r.sectors_erased@.len()) + " written "@ + dec(r.sectors_written@.len())
        + " skipped "@ + dec(r.sectors_skipped@.len()) + " in "@ + dec(ms) + " ms"@
}

fn say_sector(sector: u8, rest: &str) -> (o: ProgressOutput)
    ensures
        o matches ProgressOutput::Say(s) && s@ == sector_line(sector, rest@),
{
    let mut s = String::from_str("Sector ");
    push_dec(&mut s, sector as u64);
    s.append(rest);
    ProgressOutput::Say(s)
}

/// `o` prints exactly `text`.
pub open spec fn says(o: ProgressOutput, text: Seq<char>) -> bool {
    o matches ProgressOutput::Say(s) && s@ == text
}

/// A chunk event on a terminal: the sector's bar is started when it is
/// not the one shown, moved to `bytes`, and cleared once the sector is
/// complete.
pub open spec fn chunk_tty_ok(
    before: ProgressState,
    after: ProgressState,
    out: Seq<ProgressOutput>,
    sector: u8,
    bytes: u32,
    total: u32,
) -> bool {
    &&& after.last_percent == before.last_percent
    &&& after.bar_sector == (if bytes >= total { None } else { Some(sector) })
    &&& if before.bar_sector == Some(sector) {
        &&& out.len() == (if bytes >= total { 2int } else { 1int })
        &&& (out[0] matches ProgressOutput::BarPosition(b) && b == bytes)
        &&& bytes >= total ==> out[1] is BarFinish
    } else {
        &&& out.len() == (if bytes >= total { 3int } else { 2int })
        &&& (out[0] matches ProgressOutput::BarStart { sector: s, total: t } && s == sector && t == total)
        &&& (out[1] matches ProgressOutput::BarPosition(b) && b == bytes)
        &&& bytes >= total ==> out[2] is BarFinish
    }
}

/// A chunk event without a terminal: a percent line when the sector is
/// new, the percent moved ten points, or the sector is complete.
pub open spec fn chunk_plain_ok(
    before: ProgressState,
    after: ProgressState,
    out: Seq<ProgressOutput>,
    sector: u8,
    bytes: u32,
    total: u32,
) -> bool {
    let pct = percent_spec(bytes, total);
    let print = match before.last_percent {
        Some((s, last)) => s != sector || pct >= last + 10 || bytes >= total,
        None => true,
    };
    &&& after.bar_sector == before.bar_sector
    &&& after.last_percent == (if bytes >= total {
        None
    } else if print {
        Some((sector, pct as u32))
    } else {
        before.last_percent
    })
    &&& out.len() == (if print { 1int } else { 0int })
    &&& print ==> says(out[0], percent_line(sector, pct, bytes, total))
}

/// What the renderer does for one event.
pub open spec fn progress_ok(
    before: ProgressState,
    after: ProgressState,
    ev: FlashEvent,
    tty: bool,
    out: Seq<ProgressOutput>,
) -> bool {
    match ev {
        FlashEvent::PlanningSector { sector, role } => after == before && out.len() == 1 && says(
            out[0],
            sector_line(
                sector,
                if role == SectorRole::Skip { ": already matches — skipping"@ } else { ": queued for rewrite"@ },
            ),
        ),
        FlashEvent::Erased { sector } => after == before && out.len() == 1 && says(out[0], sector_line(sector, ": erased"@)),
        FlashEvent::SectorVerified { sector, crc } => after == before && out.len() == 1 && says(
            out[0],
            sector_line(sector, ": verified (crc=0x"@ + hex_upper(crc as nat, 8) + ")"@),
        ),
        FlashEvent::Committing => after == before && out.len() == 1 && if tty {
            out[0] matches ProgressOutput::SpinnerMessage(s) && s@ == "Committing metadata…"@
        } else {
            says(out[0], "Committing metadata…"@)
        },
        FlashEvent::Done { report } => after == before && out.len() == 1 && if tty {
            out[0] matches ProgressOutput::SpinnerFinish(s) && s@ == done_line(report, report.duration.millis_u64() as nat)
        } else {
            says(out[0], done_line(report, report.duration.millis_u64() as nat))
        },
        FlashEvent::ChunkWritten { sector, bytes, total } => if tty {
            chunk_tty_ok(before, after, out, sector, bytes, total)
        } else {
            chunk_plain_ok(before, after, out, sector, bytes, total)
        },
    }
}

/// Feed one engine event to the renderer: it updates `state` and says
/// what to draw. On a terminal each sector's writes drive a bar; without
/// one a percent line is printed when a sector starts, every ten percent
/// and at completion.
pub fn progress_step(state: &mut ProgressState, ev: &FlashEvent, tty: bool) -> (out: Vec<ProgressOutput>)
    ensures
        progress_ok(*old(state), *final(state), *ev, tty, out@),
{
    let mut out: Vec<ProgressOutput> = Vec::new();
    match ev {
        FlashEvent::PlanningSector { sector, role } => {
            let o = match role {
                SectorRole::Skip => say_sector(*sector, ": already matches — skipping"),
                SectorRole::Write => say_sector(*sector, ": queued for rewrite"),
            };
            out.push(o);
            proof { assert(progress_ok(*old(state), *state, *ev, tty, out@)); }
        },
        FlashEvent::Erased { sector } => {
            out.push(say_sector(*sector, ": erased"));
            proof { assert(progress_ok(*old(state), *state, *ev, tty, out@)); }
        },
        FlashEvent::SectorVerified { sector, crc } => {
            let mut s = String::from_str("Sector ");
            push_dec(&mut s, *sector as u64);
            s.append(": verified (crc=0x");
            push_hex_upper(&mut s, *crc as u64, 8);
            s.append(")");
            proof {
                assert(s@ =~= sector_line(*sector, ": verified (crc=0x"@ + hex_upper(*crc as nat, 8) + ")"@));
            }
            out.push(ProgressOutput::Say(s));
            proof { assert(progress_ok(*old(state), *state, *ev, tty, out@)); }
        },
        FlashEvent::Committing => {
            let s = String::from_str("Committing metadata…");
            if tty {
                out.push(ProgressOutput::SpinnerMessage(s));
            } else {
                out.push(ProgressOutput::Say(s));
            }
            proof { assert(progress_ok(*old(state), *state, *ev, tty, out@)); }
        },
        FlashEvent::Done { report } => {
            let mut s = String::from_str("Done — erased ");
            push_dec(&mut s, report.sectors_erased.len() as u64);
            s.append(" written ");
            push_dec(&mut s, report.sectors_written.len() as u64);
            s.append(" skipped ");
            push_dec(&mut s, report.sectors_skipped.len() as u64);
            s.append(" in ");
            let ms = duration_ms(&report.duration);
            push_dec(&mut s, ms);
            s.append(" ms");
            proof {
                assert(s@ == done_line(*report, ms as nat));
            }
            if tty {
                out.push(ProgressOutput::SpinnerFinish(s));
            } else {
                out.push(ProgressOutput::Say(s));
            }
            proof { assert(progress_ok(*old(state), *state, *ev, tty, out@)); }
        },
        FlashEvent::ChunkWritten { sector, bytes, total } => {
            let sector = *sector;
            let bytes = *bytes;
            let total = *total;
            if tty {
                let same = match state.bar_sector {
                    Some(s) => s == sector,
                    None => false,
                };
                if !same {
                    out.push(ProgressOutput::BarStart { sector, total });
                }
                out.push(ProgressOutput::BarPosition(bytes));
                if bytes >= total {
                    out.push(ProgressOutput::BarFinish);
                    state.bar_sector = None;
                } else {
                    state.bar_sector = Some(sector);
                }
            } else {
                let pct: u32 = if total == 0 {
                    100
                } else {
                    proof {
                        assert((bytes as int) * 100 / (total as int) <= (bytes as int) * 100) by (nonlinear_arith)
                            requires
                                total > 0,
                                bytes >= 0,
                        ;
                    }
                    let p: u64 = (bytes as u64) * 100 / (total as u64);
                    if p > 0xFFFF_FFFF {
                        0xFFFF_FFFF
                    } else {
                        p as u32
                    }
                };
                let print = match state.last_percent {
                    Some((s, last)) => s != sector || (pct as u64) >= (last as u64) + 10 || bytes >= total,
                    None => true,
                };
                if print {
                    let mut line = String::from_str("Sector ");
                    push_dec(&mut line, sector as u64);
                    line.append(": ");
                    push_dec_right(&mut line, pct as u64, 3);
                    line.append("% (");
                    push_dec(&mut line, bytes as u64);
                    line.append("/");
                    push_dec(&mut line, total as u64);
                    line.append(" B)");
                    proof {
                        assert(pct as nat == percent_spec(bytes, total));
                        assert(line@ =~= percent_line(sector, pct as nat, bytes, total));
                    }
                    out.push(ProgressOutput::Say(line));
                    state.last_percent = Some((sector, pct));
                }
                if bytes >= total {
                    state.last_percent = None;
                }
            }
            proof { assert(progress_ok(*old(state), *state, *ev, tty, out@)); }
        },
    }
    out
}

/// The sector line of the human report.
pub open spec fn sectors_line(r: FlashReport) -> Seq<char> {
    "  sectors: erased="@ + dec_list(r.sectors_erased@) + ", written="@ + dec_list(r.sectors_written@)
        + ", skipped="@ + dec_list(r.sectors_skipped@)
}

/// The sector line of the human report of a finished run shows no
/// erased sector, and its written and skipped lists split the image's
/// sector span: each sector of the span is in exactly one of them.
pub proof fn lemma_report_sectors_line(run: &FlashRun, r: FlashReport)
    requires
        run.action_ok(FlashAction::Finished(Ok(r))),
    ensures
        sectors_line(r) == "  sectors: erased="@ + seq!['[', ']'] + ", written="@ + dec_list(r.sectors_written@)
            + ", skipped="@ + dec_list(r.sectors_skipped@),
        forall|s: u8| !(#[trigger] r.sectors_written@.contains(s) && r.sectors_skipped@.contains(s)),
        forall|s: u8|
            #[trigger] span(run.image_spec()).contains(s) <==> (r.sectors_written@.contains(s)
                || r.sectors_skipped@.contains(s)),
{
    lemma_report_lists_disjoint(run, r);
    assert(r.sectors_erased@ =~= Seq::<u8>::empty());
    assert(dec_list(r.sectors_erased@) =~= seq!['[', ']']);
}

/// The human-readable report lines of a finished flash: the summary, the
/// sector lists, the durations, and the jump when one happened.
pub fn report_lines(args: &FlashArgs, report: &FlashReport, jump: bool, wall_ms: u64) -> (lines: Vec<String>)
    ensures
        lines@.len() == (if jump && !args.dry_run { 4int } else { 3int }),
        lines@[0]@ == (if args.dry_run { "Dry-ran "@ } else { "Flashed "@ }) + args.firmware@ + " (crc=0x"@
            + hex_upper(report.crc32 as nat, 8) + ", size="@ + dec(report.size as nat) + " B, version=0x"@
            + hex_upper(report.version as nat, 8) + ")."@,
        lines@[1]@ == sectors_line(*report),
        lines@[2]@ == "  duration: "@ + dec(report.duration.millis_u64() as nat) + " ms (engine), "@ + dec(wall_ms as nat) + " ms (wall)"@,
        jump && !args.dry_run ==> lines@[3]@ == "  jumped to app at 0x"@ + hex_upper(BL_APP_BASE as nat, 8) + "."@,
{
    let mut lines: Vec<String> = Vec::new();
    let mut l0 = String::from_str(if args.dry_run { "Dry-ran " } else { "Flashed " });
    l0.append(args.firmware.as_str());
    l0.append(" (crc=0x");
    push_hex_upper(&mut l0, report.crc32 as u64, 8);
    l0.append(", size=");
    push_dec(&mut l0, report.size as u64);
    l0.append(" B, version=0x");
    push_hex_upper(&mut l0, report.version as u64, 8);
    l0.append(").");
    lines.push(l0);
    let mut l1 = String::from_str("  sectors: erased=");
    push_dec_list(&mut l1, report.sectors_erased.as_slice());
    l1.append(", written=");
    push_dec_list(&mut l1, report.sectors_written.as_slice());
    l1.append(", skipped=");
    push_dec_list(&mut l1, report.sectors_skipped.as_slice());
    lines.push(l1);
    let mut l2 = String::from_str("  duration: ");
    let ms = duration_ms(&report.duration);
    push_dec(&mut l2, ms);
    l2.append(" ms (engine), ");
    push_dec(&mut l2, wall_ms);
    l2.append(" ms (wall)");
    proof {
        assert(l2@ == "  duration: "@ + dec(ms as nat) + " ms (engine), "@ + dec(wall_ms as nat) + " ms (wall)"@);
    }
    lines.push(l2);
    if jump && !args.dry_run {
        let mut l3 = String::from_str("  jumped to app at 0x");
        push_hex_upper(&mut l3, BL_APP_BASE as u64, 8);
        l3.append(".");
        lines.push(l3);
    }
    lines
}

} // verus!
