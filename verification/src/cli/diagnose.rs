//! `diagnose` subcommand: fault codes, log and live-data streams, session
//! health and resets.
use vstd::prelude::*;
use crate::protocol::ResetMode as ProtoResetMode;
use crate::studio::diagnose::HealthSnapshot;
use crate::studio::live_data::SnapshotPayload;
use crate::parse::{lossy_text, utf8_lossy_text};
use crate::text::{
    dec, hex_upper, pad_left, pad_right, push_dec, push_dec_right, push_hex_upper, push_left_aligned, push_padded,
};

verus! {

/// `diagnose` arguments.
#[derive(Clone, Debug)]
pub struct DiagnoseArgs {
    pub action: DiagnoseAction,
}

/// `diagnose` sub-actions.
#[derive(Clone, Debug)]
pub enum DiagnoseAction {
    /// Read stored fault codes.
    ReadDtc,
    /// Clear stored fault codes.
    ClearDtc { yes: bool },
    /// Stream the log ring from `severity` up (0 info .. 3 fatal).
    Log { severity: u8 },
    /// Stream the live-data snapshot at `rate_hz`.
    LiveData { rate_hz: u8 },
    /// One-shot health report.
    Health,
    /// Reset the device.
    Reset { mode: ResetMode },
}

/// Reset mode as the command line names it.
#[derive(Clone, Copy, Debug, PartialEq, Eq, Structural)]
pub enum ResetMode {
    /// System reset (mode 0).
    Hard,
    /// Same as hard on this family (mode 1).
    Soft,
    /// Reset into the bootloader's listen loop (mode 2).
    Bootloader,
    /// Jump straight to the installed application (mode 3).
    App,
}

impl ResetMode {
    /// The protocol mode each command-line mode stands for.
    pub open spec fn proto_spec(self) -> ProtoResetMode {
        match self {
            ResetMode::Hard => ProtoResetMode::Hard,
            ResetMode::Soft => ProtoResetMode::Soft,
            ResetMode::Bootloader => ProtoResetMode::Bootloader,
            ResetMode::App => ProtoResetMode::App,
        }
    }

    /// How a reset report describes the mode.
    pub open spec fn label_spec(self) -> Seq<char> {
        match self {
            ResetMode::Hard => "hard (NVIC_SystemReset)"@,
            ResetMode::Soft => "soft (same as hard on this family)"@,
            ResetMode::Bootloader => "into bootloader listen mode"@,
            ResetMode::App => "jump to installed app"@,
        }
    }

    /// How a reset report describes the mode.
    pub fn label(self) -> (s: &'static str)
        ensures
            s@ == self.label_spec(),
    {
        match self {
            ResetMode::Hard => "hard (NVIC_SystemReset)",
            ResetMode::Soft => "soft (same as hard on this family)",
            ResetMode::Bootloader => "into bootloader listen mode",
            ResetMode::App => "jump to installed app",
        }
    }
}

impl From<ResetMode> for ProtoResetMode {
    fn from(m: ResetMode) -> (r: ProtoResetMode) {
        match m {
            ResetMode::Hard => ProtoResetMode::Hard,
            ResetMode::Soft => ProtoResetMode::Soft,
            ResetMode::Bootloader => ProtoResetMode::Bootloader,
            ResetMode::App => ProtoResetMode::App,
        }
    }
}

impl vstd::std_specs::convert::FromSpecImpl<ResetMode> for ProtoResetMode {
    open spec fn obeys_from_spec() -> bool {
        true
    }

    open spec fn from_spec(m: ResetMode) -> ProtoResetMode {
        m.proto_spec()
    }
}

/// The protocol mode of a command-line mode.
pub fn proto_reset_mode(m: ResetMode) -> (r: ProtoResetMode)
    ensures
        r == m.proto_spec(),
{
    ProtoResetMode::from(m)
}

/// An uptime as `XhMMmSSs`, `MmSSs` or `Ss`, by its largest unit.
pub open spec fn uptime_text(s: nat) -> Seq<char> {
    let h = s / 3600;
    let m = (s % 3600) / 60;
    let sec = s % 60;
    if h > 0 {
        dec(h) + seq!['h'] + pad_left(dec(m), 2, '0') + seq!['m'] + pad_left(dec(sec), 2, '0') + seq!['s']
    } else if m > 0 {
        dec(m) + seq!['m'] + pad_left(dec(sec), 2, '0') + seq!['s']
    } else {
        dec(sec) + seq!['s']
    }
}

/// Render an uptime in seconds as `1h01m40s`, `1m30s` or `42s`.
pub fn format_uptime_seconds(s: u32) -> (r: String)
    ensures
        r@ == uptime_text(s as nat),
{
    let h = s / 3600;
    let m = (s % 3600) / 60;
    let sec = s % 60;
    let mut out = String::new();
    proof {
        reveal_strlit("h");
        reveal_strlit("m");
        reveal_strlit("s");
    }
    if h > 0 {
        push_dec(&mut out, h as u64);
        out.append("h");
        push_padded(&mut out, m as u64, 10, true, 2, '0');
        out.append("m");
        push_padded(&mut out, sec as u64, 10, true, 2, '0');
        out.append("s");
    } else if m > 0 {
        push_dec(&mut out, m as u64);
        out.append("m");
        push_padded(&mut out, sec as u64, 10, true, 2, '0');
        out.append("s");
    } else {
        push_dec(&mut out, sec as u64);
        out.append("s");
    }
    proof {
        assert(out@ =~= uptime_text(s as nat));
    }
    out
}

/// `yes` / `no`.
pub open spec fn yes_no(b: bool) -> Seq<char> {
    if b {
        seq!['y', 'e', 's']
    } else {
        seq!['n', 'o']
    }
}

fn push_yes_no(out: &mut String, b: bool)
    ensures
        final(out)@ == old(out)@ + yes_no(b),
{
    proof {
        reveal_strlit("yes");
        reveal_strlit("no");
    }
    if b {
        out.append("yes");
    } else {
        out.append("no");
    }
}

/// The lines `diagnose health` prints for a health record.
pub open spec fn health_text(h: HealthSnapshot) -> Seq<Seq<char>> {
    seq![
        "Device health"@,
        "─────────────"@,
        "  Uptime         : "@ + dec(h.uptime_seconds as nat) + "s ("@ + uptime_text(h.uptime_seconds as nat) + ")"@,
        "  Reset cause    : "@ + h.reset_cause@,
        "  Session active : "@ + yes_no(h.session_active),
        "  Valid app      : "@ + yes_no(h.valid_app_present),
        "  WRP protected  : "@ + yes_no(h.wrp_protected),
        "  Flash writes   : "@ + dec(h.flash_write_count as nat),
        "  DTC count      : "@ + dec(h.dtc_count as nat),
        "  Last DTC code  : 0x"@ + hex_upper(h.last_dtc_code as nat, 4),
        "  Raw flags      : 0x"@ + hex_upper(h.raw_flags as nat, 8),
    ]
}

/// The human rendering of a health record, line by line.
pub fn health_lines(h: &HealthSnapshot) -> (lines: Vec<String>)
    ensures
        lines@.len() == 11,
        forall|i: int| 0 <= i < 11 ==> #[trigger] lines@[i]@ == health_text(*h)[i],
{
    let mut lines: Vec<String> = Vec::new();
    lines.push(String::from_str("Device health"));
    lines.push(String::from_str("─────────────"));
    let mut l = String::from_str("  Uptime         : ");
    push_dec(&mut l, h.uptime_seconds as u64);
    l.append("s (");
    let up = format_uptime_seconds(h.uptime_seconds);
    l.append(up.as_str());
    l.append(")");
    lines.push(l);
    let mut l = String::from_str("  Reset cause    : ");
    l.append(h.reset_cause.as_str());
    lines.push(l);
    let mut l = String::from_str("  Session active : ");
    push_yes_no(&mut l, h.session_active);
    lines.push(l);
    let mut l = String::from_str("  Valid app      : ");
    push_yes_no(&mut l, h.valid_app_present);
    lines.push(l);
    let mut l = String::from_str("  WRP protected  : ");
    push_yes_no(&mut l, h.wrp_protected);
    lines.push(l);
    let mut l = String::from_str("  Flash writes   : ");
    push_dec(&mut l, h.flash_write_count as u64);
    lines.push(l);
    let mut l = String::from_str("  DTC count      : ");
    push_dec(&mut l, h.dtc_count as u64);
    lines.push(l);
    let mut l = String::from_str("  Last DTC code  : 0x");
    push_hex_upper(&mut l, h.last_dtc_code as u64, 4);
    lines.push(l);
    let mut l = String::from_str("  Raw flags      : 0x");
    push_hex_upper(&mut l, h.raw_flags as u64, 8);
    lines.push(l);
    lines
}

/// The bytes of `b` before its first zero byte (all of them without one).
pub open spec fn before_nul(b: Seq<u8>) -> Seq<u8>
    decreases b.len(),
{
    if b.len() == 0 {
        b
    } else if b[0] == 0 {
        Seq::empty()
    } else {
        seq![b[0]] + before_nul(b.drop_first())
    }
}

/// The label of a log entry's severity byte.
pub open spec fn log_severity_text(s: u8) -> Seq<char> {
    if s == 0 {
        "INFO"@
    } else if s == 1 {
        "WARN"@
    } else if s == 2 {
        "ERROR"@
    } else if s == 3 {
        "FATAL"@
    } else {
        "?"@
    }
}

/// The line printed for a streamed log entry `[severity, flags, ts (LE32),
/// message…]`: a short entry is reported as truncated; otherwise the
/// timestamp, the severity, the flags and the message up to its first
/// NUL, decoded as UTF-8 with invalid sequences replaced.
pub open spec fn log_entry_text(p: Seq<u8>) -> Seq<char> {
    if p.len() < 6 {
        "(log entry truncated: "@ + dec(p.len()) + " bytes)"@
    } else {
        let ts = p[2] as nat + p[3] as nat * 0x100 + p[4] as nat * 0x1_0000 + p[5] as nat * 0x100_0000;
        "["@ + pad_left(dec(ts), 10, ' ') + "ms] "@ + pad_right(log_severity_text(p[0]), 5) + " [flags=0x"@
            + hex_upper(p[1] as nat, 2) + "] "@ + utf8_lossy_text(before_nul(p.subrange(6, p.len() as int)))
    }
}

/// Render one streamed log entry (`payload` starts at the entry's own
/// bytes).
pub fn log_entry_line(payload: &[u8]) -> (s: String)
    ensures
        s@ == log_entry_text(payload@),
{
    if payload.len() < 6 {
        let mut s = String::from_str("(log entry truncated: ");
        push_dec(&mut s, payload.len() as u64);
        s.append(" bytes)");
        return s;
    }
    let severity = payload[0];
    let flags = payload[1];
    let ts: u32 = payload[2] as u32 + payload[3] as u32 * 0x100 + payload[4] as u32 * 0x1_0000 + payload[5] as u32
        * 0x100_0000;
    let label = if severity == 0 {
        "INFO"
    } else if severity == 1 {
        "WARN"
    } else if severity == 2 {
        "ERROR"
    } else if severity == 3 {
        "FATAL"
    } else {
        "?"
    };
    let mut end: usize = 6;
    while end < payload.len() && payload[end] != 0
        invariant
            6 <= end <= payload@.len(),
            forall|j: int| 6 <= j < end ==> payload@[j] != 0,
        decreases payload@.len() - end,
    {
        end = end + 1;
    }
    let msg = vstd::slice::slice_subrange(payload, 6, end);
    proof {
        lemma_before_nul(payload@.subrange(6, payload@.len() as int), (end - 6) as int);
        assert(msg@ =~= payload@.subrange(6, payload@.len() as int).subrange(0, end - 6));
    }
    let text = lossy_text(msg);
    let mut s = String::from_str("[");
    push_dec_right(&mut s, ts as u64, 10);
    s.append("ms] ");
    push_left_aligned(&mut s, label, 5);
    s.append(" [flags=0x");
    push_hex_upper(&mut s, flags as u64, 2);
    s.append("] ");
    s.append(text.as_str());
    s
}

proof fn lemma_before_nul(b: Seq<u8>, k: int)
    requires
        0 <= k <= b.len(),
        forall|j: int| 0 <= j < k ==> b[j] != 0,
        k == b.len() || b[k] == 0,
    ensures
        before_nul(b) == b.subrange(0, k),
    decreases k,
{
    if k == 0 {
        if b.len() == 0 {
            assert(b.subrange(0, 0) =~= b);
        } else {
            assert(b.subrange(0, 0) =~= Seq::<u8>::empty());
        }
    } else {
        let d = b.drop_first();
        assert forall|j: int| 0 <= j < k - 1 implies d[j] != 0 by {
            assert(d[j] == b[j + 1]);
        }
        if k < b.len() {
            assert(d[k - 1] == b[k]);
        }
        lemma_before_nul(d, k - 1);
        assert(seq![b[0]] + d.subrange(0, k - 1) =~= b.subrange(0, k));
    }
}

/// A DTC entry's severity, as the device's record decodes it.
#[derive(Clone, Copy, Debug, PartialEq, Eq, Structural)]
pub enum DtcSeverity {
    Info,
    Warn,
    Error,
    Fatal,
    /// A raw value with no known severity.
    Unknown(u8),
}

/// One stored diagnostic trouble code, its severity decoded.
#[derive(Clone, Copy, Debug, PartialEq, Eq, Structural)]
pub struct DtcRow {
    pub code: u16,
    pub severity: DtcSeverity,
    pub occurrence_count: u8,
    pub first_seen_uptime_seconds: u32,
    pub last_seen_uptime_seconds: u32,
    pub context_data: u32,
}

/// The label of a severity in the DTC table.
pub open spec fn severity_label(s: DtcSeverity) -> Seq<char> {
    match s {
        DtcSeverity::Info => "INFO"@,
        DtcSeverity::Warn => "WARN"@,
        DtcSeverity::Error => "ERROR"@,
        DtcSeverity::Fatal => "FATAL"@,
        DtcSeverity::Unknown(x) => "?(0x"@ + hex_upper(x as nat, 2) + ")"@,
    }
}

/// The header line of the DTC table.
pub open spec fn dtc_header_text() -> Seq<char> {
    "Code      Severity   Count    First seen     Last seen  Context   "@
}

/// The rule under the DTC table's header.
pub open spec fn dtc_rule_text() -> Seq<char> {
    "────────  ─────────  ─────  ────────────  ────────────  ──────────"@
}

/// The table line of one DTC.
pub open spec fn dtc_row_text(e: DtcRow) -> Seq<char> {
    "0x"@ + hex_upper(e.code as nat, 4) + "    "@ + pad_right(severity_label(e.severity), 9) + "  "@ + pad_left(
        dec(e.occurrence_count as nat),
        5,
        ' ',
    ) + "  "@ + pad_left(dec(e.first_seen_uptime_seconds as nat), 10, ' ') + "s  "@ + pad_left(
        dec(e.last_seen_uptime_seconds as nat),
        10,
        ' ',
    ) + "s  0x"@ + hex_upper(e.context_data as nat, 8)
}

fn push_severity_label(out: &mut String, s: DtcSeverity)
    ensures
        final(out)@ == old(out)@ + pad_right(severity_label(s), 9),
{
    let mut l = String::new();
    match s {
        DtcSeverity::Info => l.append("INFO"),
        DtcSeverity::Warn => l.append("WARN"),
        DtcSeverity::Error => l.append("ERROR"),
        DtcSeverity::Fatal => l.append("FATAL"),
        DtcSeverity::Unknown(x) => {
            l.append("?(0x");
            push_hex_upper(&mut l, x as u64, 2);
            l.append(")");
        },
    }
    assert(l@ =~= severity_label(s));
    push_left_aligned(out, l.as_str(), 9);
}

/// The lines `diagnose read-dtc` prints: `No DTCs logged.` for none,
/// else the header, the rule and one line per entry in order.
pub fn dtc_table_lines(entries: &[DtcRow]) -> (lines: Vec<String>)
    ensures
        entries@.len() == 0 ==> lines@.len() == 1 && lines@[0]@ == "No DTCs logged."@,
        entries@.len() > 0 ==> {
            &&& lines@.len() == entries@.len() + 2
            &&& lines@[0]@ == dtc_header_text()
            &&& lines@[1]@ == dtc_rule_text()
            &&& forall|i: int| 0 <= i < entries@.len() ==> #[trigger] lines@[i + 2]@ == dtc_row_text(entries@[i])
        },
{
    let mut lines: Vec<String> = Vec::new();
    if entries.len() == 0 {
        lines.push(String::from_str("No DTCs logged."));
        return lines;
    }
    lines.push(String::from_str("Code      Severity   Count    First seen     Last seen  Context   "));
    lines.push(String::from_str("────────  ─────────  ─────  ────────────  ────────────  ──────────"));
    let mut i: usize = 0;
    while i < entries.len()
        invariant
            i <= entries@.len(),
            entries@.len() > 0,
            lines@.len() == i + 2,
            lines@[0]@ == dtc_header_text(),
            lines@[1]@ == dtc_rule_text(),
            forall|j: int| 0 <= j < i ==> #[trigger] lines@[j + 2]@ == dtc_row_text(entries@[j]),
        decreases entries@.len() - i,
    {
        let e = entries[i];
        let mut l = String::from_str("0x");
        push_hex_upper(&mut l, e.code as u64, 4);
        l.append("    ");
        push_severity_label(&mut l, e.severity);
        l.append("  ");
        push_dec_right(&mut l, e.occurrence_count as u64, 5);
        l.append("  ");
        push_dec_right(&mut l, e.first_seen_uptime_seconds as u64, 10);
        l.append("s  ");
        push_dec_right(&mut l, e.last_seen_uptime_seconds as u64, 10);
        l.append("s  0x");
        push_hex_upper(&mut l, e.context_data as u64, 8);
        assert(l@ =~= dtc_row_text(e));
        lines.push(l);
        i = i + 1;
    }
    lines
}

/// The line `diagnose live-data` prints for one snapshot.
pub open spec fn live_data_text(p: SnapshotPayload) -> Seq<char> {
    "["@ + pad_left(dec(p.uptime_ms as nat), 10, ' ') + "ms] rx="@ + pad_left(dec(p.frames_rx as nat), 5, ' ')
        + " tx="@ + pad_left(dec(p.frames_tx as nat), 5, ' ') + " nacks="@ + pad_left(dec(p.nacks_sent as nat), 3, ' ')
        + " dtc="@ + dec(p.dtc_count as nat) + " last_op=0x"@ + hex_upper(p.last_opcode as nat, 2)
        + " last_flash=0x"@ + hex_upper(p.last_flash_addr as nat, 8) + " isotp_prog="@ + dec(
        p.isotp_rx_progress as nat,
    ) + " sess_age="@ + dec(p.session_age_ms as nat) + "ms flags=0x"@ + hex_upper(p.flags as nat, 2)
}

/// Render one live-data snapshot for the terminal.
pub fn live_data_line(p: &SnapshotPayload) -> (s: String)
    ensures
        s@ == live_data_text(*p),
{
    let mut s = String::from_str("[");
    push_dec_right(&mut s, p.uptime_ms as u64, 10);
    s.append("ms] rx=");
    push_dec_right(&mut s, p.frames_rx as u64, 5);
    s.append(" tx=");
    push_dec_right(&mut s, p.frames_tx as u64, 5);
    s.append(" nacks=");
    push_dec_right(&mut s, p.nacks_sent as u64, 3);
    s.append(" dtc=");
    push_dec(&mut s, p.dtc_count as u64);
    s.append(" last_op=0x");
    push_hex_upper(&mut s, p.last_opcode as u64, 2);
    s.append(" last_flash=0x");
    push_hex_upper(&mut s, p.last_flash_addr as u64, 8);
    s.append(" isotp_prog=");
    push_dec(&mut s, p.isotp_rx_progress as u64);
    s.append(" sess_age=");
    push_dec(&mut s, p.session_age_ms as u64);
    s.append("ms flags=0x");
    push_hex_upper(&mut s, p.flags as u64, 2);
    s
}

/// The bootloader's severity numbering (`0 = info, 1 = warn, 2 = error,
/// 3 = fatal`), as a DTC severity.
pub open spec fn severity_of_byte(s: u8) -> DtcSeverity {
    if s == 0 {
        DtcSeverity::Info
    } else if s == 1 {
        DtcSeverity::Warn
    } else if s == 2 {
        DtcSeverity::Error
    } else if s == 3 {
        DtcSeverity::Fatal
    } else {
        DtcSeverity::Unknown(s)
    }
}

/// A streamed log entry names its severity as the DTC table does: for the
/// four severities of the bootloader's numbering the label is the DTC
/// table's (`INFO`, `WARN`, `ERROR`, `FATAL`), any other byte shows `?`;
/// the label sits after the padded timestamp, left-aligned in five
/// columns, before the flags.
pub proof fn lemma_log_entry_severity(p: Seq<u8>)
    requires
        p.len() >= 6,
    ensures
        p[0] <= 3 ==> log_severity_text(p[0]) == severity_label(severity_of_byte(p[0])),
        p[0] > 3 ==> log_severity_text(p[0]) == seq!['?'],
        severity_of_byte(0) == DtcSeverity::Info && severity_of_byte(1) == DtcSeverity::Warn && severity_of_byte(2)
            == DtcSeverity::Error && severity_of_byte(3) == DtcSeverity::Fatal,
        p[0] <= 3 ==> log_entry_text(p) == "["@ + pad_left(
            dec((p[2] as nat + p[3] as nat * 0x100 + p[4] as nat * 0x1_0000 + p[5] as nat * 0x100_0000) as nat),
            10,
            ' ',
        ) + "ms] "@ + pad_right(severity_label(severity_of_byte(p[0])), 5) + " [flags=0x"@ + hex_upper(p[1] as nat, 2)
            + "] "@ + utf8_lossy_text(before_nul(p.subrange(6, p.len() as int))),
{
    reveal_strlit("?");
    assert("?"@ =~= seq!['?']);
}

/// The three numbers an uptime shows recombine to the uptime: the hours,
/// the minutes below sixty and the seconds below sixty, `3600·h + 60·m + s`,
/// with the leading units left out while they are zero.
pub proof fn lemma_uptime_parts(s: nat)
    ensures
        ({
            let h = s / 3600;
            let m = (s % 3600) / 60;
            let sec = s % 60;
            &&& h * 3600 + m * 60 + sec == s
            &&& m < 60
            &&& sec < 60
            &&& uptime_text(s) == if h > 0 {
                dec(h) + seq!['h'] + pad_left(dec(m), 2, '0') + seq!['m'] + pad_left(dec(sec), 2, '0') + seq!['s']
            } else if m > 0 {
                dec(m) + seq!['m'] + pad_left(dec(sec), 2, '0') + seq!['s']
            } else {
                dec(sec) + seq!['s']
            }
        }),
{
    let h = s / 3600;
    let m = (s % 3600) / 60;
    let sec = s % 60;
    assert(h * 3600 + m * 60 + sec == s && m < 60 && sec < 60) by (nonlinear_arith)
        requires
            h == s / 3600,
            m == (s % 3600) / 60,
            sec == s % 60,
    ;
}

/// What the health report shows, line by line: a title and its rule, then
/// each label followed by the field it names (uptime in seconds and as
/// `XhMMmSSs`, reset cause, the three flags as yes/no, the two counters in
/// decimal, the last DTC code in four and the raw flags in eight
/// upper-case hex digits).
pub proof fn lemma_health_report_fields(h: HealthSnapshot)
    ensures
        health_text(h).len() == 11,
        health_text(h)[2] == "  Uptime         : "@ + dec(h.uptime_seconds as nat) + "s ("@ + uptime_text(h.uptime_seconds as nat) + ")"@,
        health_text(h)[3] == "  Reset cause    : "@ + h.reset_cause@,
        health_text(h)[4] == "  Session active : "@ + yes_no(h.session_active),
        health_text(h)[5] == "  Valid app      : "@ + yes_no(h.valid_app_present),
        health_text(h)[6] == "  WRP protected  : "@ + yes_no(h.wrp_protected),
        health_text(h)[7] == "  Flash writes   : "@ + dec(h.flash_write_count as nat),
        health_text(h)[8] == "  DTC count      : "@ + dec(h.dtc_count as nat),
        health_text(h)[9] == "  Last DTC code  : 0x"@ + hex_upper(h.last_dtc_code as nat, 4),
        health_text(h)[10] == "  Raw flags      : 0x"@ + hex_upper(h.raw_flags as nat, 8),
        yes_no(true) == seq!['y', 'e', 's'] && yes_no(false) == seq!['n', 'o'],
{
}

/// A DTC table row shows, in order: the code in four upper-case hex
/// digits, the severity label left-aligned in nine columns, the occurrence
/// count right-aligned in five, the first-seen then the last-seen uptime
/// right-aligned in ten (each followed by `s`), and the context word in
/// eight hex digits.
pub proof fn lemma_dtc_row_fields(e: DtcRow)
    ensures
        dtc_row_text(e) == "0x"@ + hex_upper(e.code as nat, 4) + "    "@ + pad_right(severity_label(e.severity), 9)
            + "  "@ + pad_left(dec(e.occurrence_count as nat), 5, ' ')
            + "  "@ + pad_left(dec(e.first_seen_uptime_seconds as nat), 10, ' ')
            + "s  "@ + pad_left(dec(e.last_seen_uptime_seconds as nat), 10, ' ')
            + "s  0x"@ + hex_upper(e.context_data as nat, 8),
{
}

/// A live-data line shows each counter after its label: uptime (ms), frames
/// received, frames sent, NACKs, DTC count, last opcode, last flash
/// address, ISO-TP progress, session age (ms) and the flags byte.
pub proof fn lemma_live_data_fields(p: SnapshotPayload)
    ensures
        live_data_text(p) == "["@ + pad_left(dec(p.uptime_ms as nat), 10, ' ')
            + "ms] rx="@ + pad_left(dec(p.frames_rx as nat), 5, ' ')
            + " tx="@ + pad_left(dec(p.frames_tx as nat), 5, ' ')
            + " nacks="@ + pad_left(dec(p.nacks_sent as nat), 3, ' ')
            + " dtc="@ + dec(p.dtc_count as nat)
            + " last_op=0x"@ + hex_upper(p.last_opcode as nat, 2)
            + " last_flash=0x"@ + hex_upper(p.last_flash_addr as nat, 8)
            + " isotp_prog="@ + dec(p.isotp_rx_progress as nat)
            + " sess_age="@ + dec(p.session_age_ms as nat)
            + "ms flags=0x"@ + hex_upper(p.flags as nat, 2),
{
}

} // verus!
