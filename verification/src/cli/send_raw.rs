//! `send-raw` subcommand: one raw classic-CAN frame (11-bit id, 0..=8
//! bytes) outside the bootloader protocol, then an optional listen
//! window that reports every frame seen.
use vstd::prelude::*;
use crate::parse::{int_error_message, parse_prefixed_uint, parse_uint, prefixed_uint, same_result, strip_hex_prefix, trim, trim_spec, uint_parse, has_hex_prefix};
use crate::protocol::CanFrame;
use crate::text::{dec, hex_bytes_text, hex_upper, push_dec, push_hex_bytes, push_hex_upper};

verus! {

/// `send-raw` arguments.
#[derive(Clone, Debug)]
pub struct SendRawArgs {
    /// 11-bit CAN id.
    pub id: u16,
    /// Payload, at most eight bytes.
    pub data: Vec<u8>,
    /// Listen window after sending, in milliseconds (0 skips it).
    pub listen_ms: u64,
}

/// What a CAN id argument accepts: decimal or `0x` hex, at most `0x7FF`.
pub open spec fn can_id_spec(raw: Seq<char>) -> Result<u16, Seq<char>> {
    match prefixed_uint(raw, 0xFFFF) {
        Err(k) => Err("invalid CAN id '"@ + raw + "': "@ + k.message_spec()),
        Ok(n) => if n > 0x7FF {
            Err("CAN id 0x"@ + hex_upper(n, 0) + " does not fit in 11 bits (max 0x7FF)"@)
        } else {
            Ok(n as u16)
        },
    }
}

/// Parse an 11-bit CAN id from `0x…` hex or decimal.
pub fn parse_can_id(raw: &str) -> (r: Result<u16, String>)
    ensures
        same_result(r, can_id_spec(raw@)),
{
    match parse_prefixed_uint(raw, 0xFFFF) {
        Err(k) => Err(int_error_message("invalid CAN id '", raw, k)),
        Ok(n) => {
            if n > 0x7FF {
                let mut m = String::from_str("CAN id 0x");
                push_hex_upper(&mut m, n, 0);
                m.append(" does not fit in 11 bits (max 0x7FF)");
                Err(m)
            } else {
                Ok(n as u16)
            }
        },
    }
}

/// What a payload byte argument accepts: hex, with or without `0x`.
pub open spec fn hex_byte_spec(raw: Seq<char>) -> Result<u8, Seq<char>> {
    let t = trim_spec(raw);
    let body = if has_hex_prefix(t) { t.subrange(2, t.len() as int) } else { t };
    match uint_parse(body, 16, 255) {
        Err(k) => Err("invalid hex byte '"@ + raw + "': "@ + k.message_spec()),
        Ok(n) => Ok(n as u8),
    }
}

/// Parse one hex byte — `01`, `0x01`, `0X01`, any letter case.
pub fn parse_hex_byte(raw: &str) -> (r: Result<u8, String>)
    ensures
        same_result(r, hex_byte_spec(raw@)),
{
    let trimmed = trim(raw);
    let (body, _) = strip_hex_prefix(trimmed);
    match parse_uint(body, 16, 255) {
        Err(k) => Err(int_error_message("invalid hex byte '", raw, k)),
        Ok(n) => Ok(n as u8),
    }
}

/// Payload bytes as upper-case hex pairs separated by spaces.
pub fn hex_bytes(bytes: &[u8]) -> (s: String)
    ensures
        s@ == hex_bytes_text(bytes@, true, true),
{
    let mut s = String::new();
    push_hex_bytes(&mut s, bytes, true, true);
    s
}

/// `id=0x<id:03X> len=<len> data=[<bytes>]`.
pub open spec fn frame_summary(id: u16, len: nat, data: Seq<u8>) -> Seq<char> {
    "id=0x"@ + hex_upper(id as nat, 3) + " len="@ + dec(len) + " data=["@ + hex_bytes_text(data, true, true)
        + "]"@
}

fn push_frame_summary(out: &mut String, id: u16, len: u64, data: &[u8])
    ensures
        final(out)@ == old(out)@ + frame_summary(id, len as nat, data@),
{
    out.append("id=0x");
    push_hex_upper(out, id as u64, 3);
    out.append(" len=");
    push_dec(out, len);
    out.append(" data=[");
    push_hex_bytes(out, data, true, true);
    out.append("]");
    assert(out@ =~= old(out)@ + frame_summary(id, len as nat, data@));
}

/// The confirmation line printed after sending.
pub fn sent_line(id: u16, data: &[u8]) -> (s: String)
    ensures
        s@ == "sent: "@ + frame_summary(id, data@.len(), data@),
{
    let mut s = String::from_str("sent: ");
    push_frame_summary(&mut s, id, data.len() as u64, data);
    s
}

/// The report lines of the listen window: a fixed note when nothing
/// arrived, else a count line and one line per frame.
pub fn reply_lines(frames: &[CanFrame]) -> (lines: Vec<String>)
    requires
        forall|i: int| 0 <= i < frames@.len() ==> (#[trigger] frames@[i]).wf(),
    ensures
        frames@.len() == 0 ==> lines@.len() == 1 && lines@[0]@ == "listened: (no replies)"@,
        frames@.len() > 0 ==> {
            &&& lines@.len() == frames@.len() + 1
            &&& lines@[0]@ == "listened: "@ + dec(frames@.len()) + " frame(s)"@
            &&& forall|i: int| 0 <= i < frames@.len() ==> (#[trigger] lines@[i + 1])@ == "  "@ + frame_summary(
                frames@[i].id,
                frames@[i].len as nat,
                frames@[i].payload_view(),
            )
        },
{
    let mut lines: Vec<String> = Vec::new();
    if frames.len() == 0 {
        lines.push(String::from_str("listened: (no replies)"));
        return lines;
    }
    let mut head = String::from_str("listened: ");
    push_dec(&mut head, frames.len() as u64);
    head.append(" frame(s)");
    lines.push(head);
    let mut i: usize = 0;
    while i < frames.len()
        invariant
            i <= frames@.len(),
            forall|k: int| 0 <= k < frames@.len() ==> (#[trigger] frames@[k]).wf(),
            lines@.len() == i + 1,
            lines@[0]@ == "listened: "@ + dec(frames@.len()) + " frame(s)"@,
            forall|k: int| 0 <= k < i ==> (#[trigger] lines@[k + 1])@ == "  "@ + frame_summary(
                frames@[k].id,
                frames@[k].len as nat,
                frames@[k].payload_view(),
            ),
        decreases frames@.len() - i,
    {
        let f = &frames[i];
        let mut line = String::from_str("  ");
        push_frame_summary(&mut line, f.id, f.len as u64, f.payload());
        lines.push(line);
        i = i + 1;
    }
    lines
}

/// A frame summary shows the identifier in three upper-case hex digits, the length in decimal, then the data bytes as spaced upper-case hex pairs.
pub proof fn lemma_frame_summary_pieces(id: u16, len: nat, data: Seq<u8>)
    ensures
        frame_summary(id, len, data) == ({
            "id=0x"@ + hex_upper(id as nat, 3) + " len="@ + dec(len) + " data=["@ + hex_bytes_text(data, true, true)
                + "]"@
        }),
{
}

/// CAN ids are 11 bits: every id up to `0x7FF`, written in decimal or as
/// `0x` and three upper-case hex digits, parses back to itself, and every
/// larger 16-bit id is refused in either form.
pub proof fn lemma_can_id_range(id: u16)
    ensures
        id <= 0x7FF ==> can_id_spec(dec(id as nat)) == Ok::<u16, Seq<char>>(id),
        id <= 0x7FF ==> can_id_spec("0x"@ + hex_upper(id as nat, 3)) == Ok::<u16, Seq<char>>(id),
        id > 0x7FF ==> can_id_spec(dec(id as nat)) is Err,
        id > 0x7FF ==> can_id_spec("0x"@ + hex_upper(id as nat, 3)) is Err,
{
    crate::parse::lemma_prefixed_round_trip(id as nat, 3, 0xFFFF);
}

/// A payload byte written as two upper-case hex digits, with or without
/// `0x`, parses back to itself.
pub proof fn lemma_hex_byte_round_trip(b: u8)
    ensures
        hex_byte_spec(hex_upper(b as nat, 2)) == Ok::<u8, Seq<char>>(b),
{
    crate::parse::lemma_render_parse_round_trip(b as nat, 2, 255);
    crate::parse::lemma_hex_text_plain(b as nat, 2);
}

} // verus!
