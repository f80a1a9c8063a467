//! `adapters` subcommand: the report of detected CAN adapters, by family,
//! and its human-readable rendering.
use vstd::prelude::*;
use crate::text::{dec, hex_lower, hex_upper, pad_right, push_dec, push_hex_lower, push_hex_upper};

verus! {

/// Detected adapters, one list per family.
#[derive(Clone, Debug)]
pub struct AdapterReport {
    pub slcan: Vec<SlcanEntry>,
    pub socketcan: Vec<SocketCanEntry>,
    pub pcan: Vec<PcanEntry>,
    pub vector: Vec<VectorEntry>,
}

impl Default for AdapterReport {
    /// Every list empty.
    fn default() -> (r: AdapterReport)
        ensures
            r.slcan@.len() == 0,
            r.socketcan@.len() == 0,
            r.pcan@.len() == 0,
            r.vector@.len() == 0,
    {
        AdapterReport { slcan: Vec::new(), socketcan: Vec::new(), pcan: Vec::new(), vector: Vec::new() }
    }
}

/// A USB serial port that looks like an SLCAN adapter.
#[derive(Clone, Debug)]
pub struct SlcanEntry {
    pub channel: String,
    pub description: String,
    /// USB vendor id as `0x` and four lower-case hex digits.
    pub vid: Option<String>,
    /// USB product id as `0x` and four lower-case hex digits.
    pub pid: Option<String>,
}

/// A SocketCAN interface.
#[derive(Clone, Debug)]
pub struct SocketCanEntry {
    pub interface: String,
}

/// A PCAN channel.
#[derive(Clone, Debug)]
pub struct PcanEntry {
    pub channel: String,
    /// The PCAN-Basic channel constant as `0x` and two hex digits.
    pub channel_byte: String,
}

/// A Vector XL channel.
#[derive(Clone, Debug)]
pub struct VectorEntry {
    /// Decimal XL channel index.
    pub channel: String,
    pub name: String,
    pub transceiver: String,
}

/// `0x` and four lower-case hex digits, as a USB id is listed.
pub open spec fn usb_id_text(v: u16) -> Seq<char> {
    "0x"@ + hex_lower(v as nat, 4)
}

fn usb_id_string(v: u16) -> (s: String)
    ensures
        s@ == usb_id_text(v),
{
    let mut s = String::from_str("0x");
    push_hex_lower(&mut s, v as u64, 4);
    s
}

impl SlcanEntry {
    /// The entry for a detected serial port; the USB ids, when known, are
    /// written as `0x` and four lower-case hex digits.
    pub fn from_detected(channel: String, description: String, vid_pid: Option<(u16, u16)>) -> (e: SlcanEntry)
        ensures
            e.channel == channel,
            e.description == description,
            match vid_pid {
                Some((v, p)) => (e.vid matches Some(x) && x@ == usb_id_text(v)) && (e.pid matches Some(y) && y@
                    == usb_id_text(p)),
                None => e.vid is None && e.pid is None,
            },
    {
        let (vid, pid) = match vid_pid {
            Some((v, p)) => (Some(usb_id_string(v)), Some(usb_id_string(p))),
            None => (None, None),
        };
        SlcanEntry { channel, description, vid, pid }
    }
}

impl PcanEntry {
    /// The entry for a detected PCAN channel; its channel constant is
    /// written as `0x` and two upper-case hex digits.
    pub fn from_detected(channel: String, channel_byte: u8) -> (e: PcanEntry)
        ensures
            e.channel == channel,
            e.channel_byte@ == "0x"@ + hex_upper(channel_byte as nat, 2),
    {
        let mut b = String::from_str("0x");
        push_hex_upper(&mut b, channel_byte as u64, 2);
        PcanEntry { channel, channel_byte: b }
    }
}

impl VectorEntry {
    /// The entry for a detected Vector channel; the channel index in decimal.
    pub fn from_detected(channel_index: u32, name: String, transceiver: String) -> (e: VectorEntry)
        ensures
            e.channel@ == dec(channel_index as nat),
            e.name == name,
            e.transceiver == transceiver,
    {
        let mut c = String::new();
        push_dec(&mut c, channel_index as u64);
        assert(c@ =~= dec(channel_index as nat));
        VectorEntry { channel: c, name, transceiver }
    }
}

/// What adapter detection found, family by family, before formatting.
pub struct DetectedAdapters {
    /// Serial ports: channel, description and USB `(vid, pid)` when known.
    pub slcan: Vec<(String, String, Option<(u16, u16)>)>,
    /// SocketCAN interface names.
    pub socketcan: Vec<String>,
    /// PCAN channels: name and PCAN-Basic channel constant.
    pub pcan: Vec<(String, u8)>,
    /// Vector XL channels: index, name and transceiver.
    pub vector: Vec<(u32, String, String)>,
}

/// Which adapter families the host platform can use.
#[derive(Clone, Copy, Debug, PartialEq, Eq, Structural)]
pub struct PlatformSupport {
    /// PCAN-Basic (Windows, macOS).
    pub pcan_basic: bool,
    /// SocketCAN (Linux).
    pub socketcan: bool,
    /// Vector XL (Windows).
    pub vector: bool,
}

/// Byte length of a string (`String::len`).
pub open spec fn blen(s: String) -> nat {
    (vstd::utf8::encode_utf8(s@).len() as usize) as nat
}

/// Widest byte length among the texts `f(e)` of the entries.
pub open spec fn max_blen<T>(entries: Seq<T>, f: spec_fn(T) -> String) -> nat
    decreases entries.len(),
{
    if entries.len() == 0 {
        0
    } else {
        let m = max_blen(entries.drop_last(), f);
        let l = blen(f(entries.last()));
        if l > m {
            l
        } else {
            m
        }
    }
}

/// Lines of entries `0..k`, each built by `line`.
pub open spec fn lines_of<T>(entries: Seq<T>, line: spec_fn(T) -> Seq<char>, k: int) -> Seq<char>
    decreases k,
{
    if k <= 0 {
        Seq::empty()
    } else {
        lines_of(entries, line, k - 1) + line(entries[k - 1])
    }
}

/// The SLCAN section.
pub open spec fn slcan_section(e: Seq<SlcanEntry>) -> Seq<char> {
    let w = max_blen(e, |x: SlcanEntry| x.channel);
    "SLCAN serial ports:\n"@ + if e.len() == 0 {
        "  (none detected)\n"@
    } else {
        lines_of(e, |x: SlcanEntry| "  "@ + pad_right(x.channel@, w) + "   "@ + x.description@ + "\n"@, e.len() as int)
    }
}

/// The PCAN section.
pub open spec fn pcan_section(e: Seq<PcanEntry>, supported: bool) -> Seq<char> {
    let w = max_blen(e, |x: PcanEntry| x.channel);
    "PCAN devices:\n"@ + if !supported {
        "  (PCAN-Basic only supported on Windows / macOS — on Linux PCAN adapters appear under SocketCAN)\n"@
    } else if e.len() == 0 {
        "  (none detected — PCAN-Basic library may be missing)\n"@
    } else {
        lines_of(e, |x: PcanEntry| "  "@ + pad_right(x.channel@, w) + "   ("@ + x.channel_byte@ + ")\n"@, e.len() as int)
    }
}

/// The Vector section.
pub open spec fn vector_section(e: Seq<VectorEntry>, supported: bool) -> Seq<char> {
    let cw = max_blen(e, |x: VectorEntry| x.channel);
    let nw = max_blen(e, |x: VectorEntry| x.name);
    "Vector XL devices:\n"@ + if !supported {
        "  (Vector XL Driver Library is currently Windows-only — Linux support planned)\n"@
    } else if e.len() == 0 {
        "  (none detected — XL Driver Library may be missing or no hardware connected)\n"@
    } else {
        lines_of(
            e,
            |x: VectorEntry| "  "@ + pad_right(x.channel@, cw) + "   "@ + pad_right(x.name@, nw) + "   "@ + x.transceiver@
                + "\n"@,
            e.len() as int,
        )
    }
}

/// The SocketCAN section.
pub open spec fn socketcan_section(e: Seq<SocketCanEntry>, supported: bool) -> Seq<char> {
    "SocketCAN interfaces:\n"@ + if !supported {
        "  (SocketCAN is Linux-only)\n"@
    } else if e.len() == 0 {
        "  (none detected — try `ip link show type can`)\n"@
    } else {
        lines_of(e, |x: SocketCanEntry| "  "@ + x.interface@ + "\n"@, e.len() as int)
    }
}

/// The whole human-readable report: the four sections, blank-line
/// separated.
pub open spec fn adapters_text(r: AdapterReport, p: PlatformSupport) -> Seq<char> {
    slcan_section(r.slcan@) + "\n"@ + pcan_section(r.pcan@, p.pcan_basic) + "\n"@ + vector_section(r.vector@, p.vector)
        + "\n"@ + socketcan_section(r.socketcan@, p.socketcan)
}

fn str_blen(s: &String) -> (n: usize)
    ensures
        n == blen(*s),
{
    s.as_str().len()
}

/// Append `s` left-aligned in `width` columns.
fn push_padded_text(out: &mut String, s: &String, width: usize)
    ensures
        final(out)@ == old(out)@ + pad_right(s@, width as nat),
{
    crate::text::push_left_aligned(out, s.as_str(), width as u64);
}

fn slcan_text(e: &Vec<SlcanEntry>) -> (s: String)
    ensures
        s@ == slcan_section(e@),
{
    let mut s = String::from_str("SLCAN serial ports:\n");
    if e.len() == 0 {
        s.append("  (none detected)\n");
        return s;
    }
    let ghost f = |x: SlcanEntry| x.channel;
    let mut w: usize = 0;
    let mut i: usize = 0;
    while i < e.len()
        invariant
            i <= e@.len(),
            f == (|x: SlcanEntry| x.channel),
            w == max_blen(e@.take(i as int), f),
        decreases e@.len() - i,
    {
        let l = str_blen(&e[i].channel);
        proof {
            assert(e@.take(i + 1).drop_last() =~= e@.take(i as int));
        }
        if l > w {
            w = l;
        }
        i = i + 1;
    }
    proof {
        assert(e@.take(e@.len() as int) =~= e@);
    }
    let ghost line = |x: SlcanEntry| "  "@ + pad_right(x.channel@, w as nat) + "   "@ + x.description@ + "\n"@;
    let ghost head = s@;
    let mut i: usize = 0;
    while i < e.len()
        invariant
            i <= e@.len(),
            line == (|x: SlcanEntry| "  "@ + pad_right(x.channel@, w as nat) + "   "@ + x.description@ + "\n"@),
            s@ == head + lines_of(e@, line, i as int),
        decreases e@.len() - i,
    {
        s.append("  ");
        push_padded_text(&mut s, &e[i].channel, w);
        s.append("   ");
        s.append(e[i].description.as_str());
        s.append("\n");
        proof {
            assert(s@ =~= head + lines_of(e@, line, i + 1));
        }
        i = i + 1;
    }
    s
}

fn pcan_text(e: &Vec<PcanEntry>, supported: bool) -> (s: String)
    ensures
        s@ == pcan_section(e@, supported),
{
    let mut s = String::from_str("PCAN devices:\n");
    if !supported {
        s.append("  (PCAN-Basic only supported on Windows / macOS — on Linux PCAN adapters appear under SocketCAN)\n");
        return s;
    }
    if e.len() == 0 {
        s.append("  (none detected — PCAN-Basic library may be missing)\n");
        return s;
    }
    let ghost f = |x: PcanEntry| x.channel;
    let mut w: usize = 0;
    let mut i: usize = 0;
    while i < e.len()
        invariant
            i <= e@.len(),
            f == (|x: PcanEntry| x.channel),
            w == max_blen(e@.take(i as int), f),
        decreases e@.len() - i,
    {
        let l = str_blen(&e[i].channel);
        proof {
            assert(e@.take(i + 1).drop_last() =~= e@.take(i as int));
        }
        if l > w {
            w = l;
        }
        i = i + 1;
    }
    proof {
        assert(e@.take(e@.len() as int) =~= e@);
    }
    let ghost line = |x: PcanEntry| "  "@ + pad_right(x.channel@, w as nat) + "   ("@ + x.channel_byte@ + ")\n"@;
    let ghost head = s@;
    let mut i: usize = 0;
    while i < e.len()
        invariant
            i <= e@.len(),
            line == (|x: PcanEntry| "  "@ + pad_right(x.channel@, w as nat) + "   ("@ + x.channel_byte@ + ")\n"@),
            s@ == head + lines_of(e@, line, i as int),
        decreases e@.len() - i,
    {
        s.append("  ");
        push_padded_text(&mut s, &e[i].channel, w);
        s.append("   (");
        s.append(e[i].channel_byte.as_str());
        s.append(")\n");
        proof {
            assert(s@ =~= head + lines_of(e@, line, i + 1));
        }
        i = i + 1;
    }
    s
}

fn vector_text(e: &Vec<VectorEntry>, supported: bool) -> (s: String)
    ensures
        s@ == vector_section(e@, supported),
{
    let mut s = String::from_str("Vector XL devices:\n");
    if !supported {
        s.append("  (Vector XL Driver Library is currently Windows-only — Linux support planned)\n");
        return s;
    }
    if e.len() == 0 {
        s.append("  (none detected — XL Driver Library may be missing or no hardware connected)\n");
        return s;
    }
    let ghost fc = |x: VectorEntry| x.channel;
    let ghost fnm = |x: VectorEntry| x.name;
    let mut cw: usize = 0;
    let mut nw: usize = 0;
    let mut i: usize = 0;
    while i < e.len()
        invariant
            i <= e@.len(),
            fc == (|x: VectorEntry| x.channel),
            fnm == (|x: VectorEntry| x.name),
            cw == max_blen(e@.take(i as int), fc),
            nw == max_blen(e@.take(i as int), fnm),
        decreases e@.len() - i,
    {
        let lc = str_blen(&e[i].channel);
        let ln = str_blen(&e[i].name);
        proof {
            assert(e@.take(i + 1).drop_last() =~= e@.take(i as int));
        }
        if lc > cw {
            cw = lc;
        }
        if ln > nw {
            nw = ln;
        }
        i = i + 1;
    }
    proof {
        assert(e@.take(e@.len() as int) =~= e@);
    }
    let ghost line = |x: VectorEntry| "  "@ + pad_right(x.channel@, cw as nat) + "   "@ + pad_right(x.name@, nw as nat)
        + "   "@ + x.transceiver@ + "\n"@;
    let ghost head = s@;
    let mut i: usize = 0;
    while i < e.len()
        invariant
            i <= e@.len(),
            line == (|x: VectorEntry| "  "@ + pad_right(x.channel@, cw as nat) + "   "@ + pad_right(x.name@, nw as nat)
                + "   "@ + x.transceiver@ + "\n"@),
            s@ == head + lines_of(e@, line, i as int),
        decreases e@.len() - i,
    {
        s.append("  ");
        push_padded_text(&mut s, &e[i].channel, cw);
        s.append("   ");
        push_padded_text(&mut s, &e[i].name, nw);
        s.append("   ");
        s.append(e[i].transceiver.as_str());
        s.append("\n");
        proof {
            assert(s@ =~= head + lines_of(e@, line, i + 1));
        }
        i = i + 1;
    }
    s
}

fn socketcan_text(e: &Vec<SocketCanEntry>, supported: bool) -> (s: String)
    ensures
        s@ == socketcan_section(e@, supported),
{
    let mut s = String::from_str("SocketCAN interfaces:\n");
    if !supported {
        s.append("  (SocketCAN is Linux-only)\n");
        return s;
    }
    if e.len() == 0 {
        s.append("  (none detected — try `ip link show type can`)\n");
        return s;
    }
    let ghost line = |x: SocketCanEntry| "  "@ + x.interface@ + "\n"@;
    let ghost head = s@;
    let mut i: usize = 0;
    while i < e.len()
        invariant
            i <= e@.len(),
            line == (|x: SocketCanEntry| "  "@ + x.interface@ + "\n"@),
            s@ == head + lines_of(e@, line, i as int),
        decreases e@.len() - i,
    {
        s.append("  ");
        s.append(e[i].interface.as_str());
        s.append("\n");
        proof {
            assert(s@ =~= head + lines_of(e@, line, i + 1));
        }
        i = i + 1;
    }
    s
}

/// Render the adapter report for a terminal; `platform` says which
/// families this host supports.
pub fn human_report(report: &AdapterReport, platform: PlatformSupport) -> (s: String)
    ensures
        s@ == adapters_text(*report, platform),
{
    let mut s = slcan_text(&report.slcan);
    s.append("\n");
    let p = pcan_text(&report.pcan, platform.pcan_basic);
    s.append(p.as_str());
    s.append("\n");
    let v = vector_text(&report.vector, platform.vector);
    s.append(v.as_str());
    s.append("\n");
    let c = socketcan_text(&report.socketcan, platform.socketcan);
    s.append(c.as_str());
    assert(s@ =~= adapters_text(*report, platform));
    s
}

/// Build the report from what detection found: SLCAN always, each other
/// family only where the platform supports it (the others stay empty).
pub fn collect_report(found: DetectedAdapters, platform: PlatformSupport) -> (r: AdapterReport)
    ensures
        r.slcan@.len() == found.slcan@.len(),
        forall|i: int| 0 <= i < r.slcan@.len() ==> slcan_entry_of(#[trigger] r.slcan@[i], found.slcan@[i]),
        r.socketcan@.len() == (if platform.socketcan { found.socketcan@.len() } else { 0 }),
        forall|i: int| 0 <= i < r.socketcan@.len() ==> #[trigger] r.socketcan@[i].interface == found.socketcan@[i],
        r.pcan@.len() == (if platform.pcan_basic { found.pcan@.len() } else { 0 }),
        forall|i: int| 0 <= i < r.pcan@.len() ==> pcan_entry_of(#[trigger] r.pcan@[i], found.pcan@[i]),
        r.vector@.len() == (if platform.vector { found.vector@.len() } else { 0 }),
        forall|i: int| 0 <= i < r.vector@.len() ==> vector_entry_of(#[trigger] r.vector@[i], found.vector@[i]),
{
    let DetectedAdapters { slcan, socketcan, pcan, vector } = found;
    let mut out_s: Vec<SlcanEntry> = Vec::new();
    let mut out_k: Vec<SocketCanEntry> = Vec::new();
    let mut out_p: Vec<PcanEntry> = Vec::new();
    let mut out_v: Vec<VectorEntry> = Vec::new();
    let ghost s0 = slcan@;
    let mut slcan = slcan;
    let mut i: usize = 0;
    let n = slcan.len();
    while i < n
        invariant
            n == s0.len(),
            i <= n,
            slcan@ == s0.skip(i as int),
            out_s@.len() == i,
            forall|j: int| 0 <= j < i ==> slcan_entry_of(#[trigger] out_s@[j], s0[j]),
        decreases n - i,
    {
        let (c, d, ids) = slcan.remove(0);
        proof {
            assert(s0.skip(i as int)[0] == s0[i as int]);
            assert(s0.skip(i as int).remove(0) =~= s0.skip(i + 1));
        }
        out_s.push(SlcanEntry::from_detected(c, d, ids));
        i = i + 1;
    }
    if platform.socketcan {
        let ghost k0 = socketcan@;
        let mut socketcan = socketcan;
        let mut i: usize = 0;
        let n = socketcan.len();
        while i < n
            invariant
                n == k0.len(),
                i <= n,
                socketcan@ == k0.skip(i as int),
                out_k@.len() == i,
                forall|j: int| 0 <= j < i ==> #[trigger] out_k@[j].interface == k0[j],
            decreases n - i,
        {
            let name = socketcan.remove(0);
            proof {
                assert(k0.skip(i as int)[0] == k0[i as int]);
                assert(k0.skip(i as int).remove(0) =~= k0.skip(i + 1));
            }
            out_k.push(SocketCanEntry { interface: name });
            i = i + 1;
        }
    }
    if platform.pcan_basic {
        let ghost p0 = pcan@;
        let mut pcan = pcan;
        let mut i: usize = 0;
        let n = pcan.len();
        while i < n
            invariant
                n == p0.len(),
                i <= n,
                pcan@ == p0.skip(i as int),
                out_p@.len() == i,
                forall|j: int| 0 <= j < i ==> pcan_entry_of(#[trigger] out_p@[j], p0[j]),
            decreases n - i,
        {
            let (name, byte) = pcan.remove(0);
            proof {
                assert(p0.skip(i as int)[0] == p0[i as int]);
                assert(p0.skip(i as int).remove(0) =~= p0.skip(i + 1));
            }
            out_p.push(PcanEntry::from_detected(name, byte));
            i = i + 1;
        }
    }
    if platform.vector {
        let ghost v0 = vector@;
        let mut vector = vector;
        let mut i: usize = 0;
        let n = vector.len();
        while i < n
            invariant
                n == v0.len(),
                i <= n,
                vector@ == v0.skip(i as int),
                out_v@.len() == i,
                forall|j: int| 0 <= j < i ==> vector_entry_of(#[trigger] out_v@[j], v0[j]),
            decreases n - i,
        {
            let (index, name, transceiver) = vector.remove(0);
            proof {
                assert(v0.skip(i as int)[0] == v0[i as int]);
                assert(v0.skip(i as int).remove(0) =~= v0.skip(i + 1));
            }
            out_v.push(VectorEntry::from_detected(index, name, transceiver));
            i = i + 1;
        }
    }
    AdapterReport { slcan: out_s, socketcan: out_k, pcan: out_p, vector: out_v }
}

/// The SLCAN entry for a detected port.
pub open spec fn slcan_entry_of(e: SlcanEntry, d: (String, String, Option<(u16, u16)>)) -> bool {
    &&& e.channel == d.0
    &&& e.description == d.1
    &&& match d.2 {
        Some((v, p)) => (e.vid matches Some(x) && x@ == usb_id_text(v)) && (e.pid matches Some(y) && y@ == usb_id_text(p)),
        None => e.vid is None && e.pid is None,
    }
}

/// The PCAN entry for a detected channel.
pub open spec fn pcan_entry_of(e: PcanEntry, d: (String, u8)) -> bool {
    e.channel == d.0 && e.channel_byte@ == "0x"@ + hex_upper(d.1 as nat, 2)
}

/// The Vector entry for a detected channel.
pub open spec fn vector_entry_of(e: VectorEntry, d: (u32, String, String)) -> bool {
    e.channel@ == dec(d.0 as nat) && e.name == d.1 && e.transceiver == d.2
}

} // verus!
