//! Format-aware firmware loader: detects ELF / Intel HEX / raw binary
//! input and normalises it into an [`Image`].
//!
//! Detection order: ELF magic (`7F 45 4C 46`) at byte 0; then Intel HEX
//! when the first non-whitespace byte is `:`; then the file extension
//! (`.elf`, `.hex`, `.bin`, case-insensitive). Anything else is
//! `UnknownFormat`.
use vstd::prelude::*;
use ihex::{Reader, Record};
use object::{Object, ObjectSegment};
use vstd::utf8::{decode_utf8, valid_utf8};
use crate::parse::{utf8_error_text, utf8_text};
use super::{Image, FW_INFO_ADDR};
use crate::protocol::FirmwareInfo;

verus! {

/// Errors the loader surfaces. Memory-map validation lives in
/// [`super::ImageError`].
#[derive(Clone, Debug)]
pub enum LoaderError {
    /// Reading the file failed; the text is the I/O error's message.
    Io(String),
    /// No magic matched and the path has no `.elf` / `.hex` / `.bin`
    /// extension.
    UnknownFormat,
    /// A raw binary needs a load address.
    BinaryNeedsAddress,
    /// The ELF parser rejected the input.
    Elf(String),
    /// The Intel HEX reader rejected the input.
    IntelHex(String),
    /// The input has no loadable segment.
    NoSegments,
    /// A segment does not fit in the 32-bit address space.
    AddressOverflow { addr: u64 },
}

/// Detected input format.
#[derive(Clone, Copy, Debug, PartialEq, Eq, Structural)]
pub enum Format {
    Elf,
    IntelHex,
    Binary,
}

/// `u8::is_ascii_whitespace`: space, tab, line feed, form feed, carriage
/// return.
pub open spec fn is_ascii_ws(b: u8) -> bool {
    b == 0x20 || b == 0x09 || b == 0x0A || b == 0x0C || b == 0x0D
}

/// The input starts with the ELF magic `7F 'E' 'L' 'F'`.
pub open spec fn has_elf_magic(bytes: Seq<u8>) -> bool {
    &&& bytes.len() >= 4
    &&& bytes[0] == 0x7F
    &&& bytes[1] == 0x45
    &&& bytes[2] == 0x4C
    &&& bytes[3] == 0x46
}

/// The input starts with the UTF-8 byte-order mark `EF BB BF`.
pub open spec fn has_bom(bytes: Seq<u8>) -> bool {
    bytes.len() >= 3 && bytes[0] == 0xEF && bytes[1] == 0xBB && bytes[2] == 0xBF
}

/// The input without a leading UTF-8 byte-order mark.
pub open spec fn strip_bom(bytes: Seq<u8>) -> Seq<u8> {
    if has_bom(bytes) {
        bytes.subrange(3, bytes.len() as int)
    } else {
        bytes
    }
}

/// After an optional UTF-8 byte-order mark, the first byte that is not
/// ASCII whitespace is `:`.
pub open spec fn starts_like_hex(bytes: Seq<u8>) -> bool {
    let b = strip_bom(bytes);
    exists|k: int| 0 <= k < b.len() && b[k] == 0x3A && forall|j: int| 0 <= j < k ==> is_ascii_ws(#[trigger] b[j])
}

/// Index of the last `c` in `p`, or -1.
pub open spec fn last_index_of(p: Seq<char>, c: char) -> int
    decreases p.len(),
{
    if p.len() == 0 {
        -1
    } else if p.last() == c {
        p.len() - 1
    } else {
        last_index_of(p.drop_last(), c)
    }
}

/// The text after the last `/` (all of `p` when it holds none).
pub open spec fn last_component(p: Seq<char>) -> Seq<char> {
    p.subrange(last_index_of(p, '/') + 1, p.len() as int)
}

/// A path whose file name is read the same way on every platform: no
/// `\` or `:`, no leading `//`, and a last `/`-component that is a name
/// (not empty, `.` or `..`).
pub open spec fn simple_path(p: Seq<char>) -> bool {
    &&& !p.contains('\\')
    &&& !p.contains(':')
    &&& !(p.len() >= 2 && p[0] == '/' && p[1] == '/')
    &&& last_component(p) != Seq::<char>::empty()
    &&& last_component(p) != seq!['.']
    &&& last_component(p) != seq!['.', '.']
}

/// The extension of a file name: the text after its last `.`, none when
/// it holds no `.` or only a leading one.
pub open spec fn name_extension(name: Seq<char>) -> Option<Seq<char>> {
    let i = last_index_of(name, '.');
    if i <= 0 {
        None
    } else {
        Some(name.subrange(i + 1, name.len() as int))
    }
}

/// The extension of a simple path's file name.
pub open spec fn simple_extension(p: Seq<char>) -> Option<Seq<char>> {
    name_extension(last_component(p))
}

/// ASCII lower-casing of one character.
pub open spec fn ascii_lower(c: char) -> char {
    if 'A' <= c <= 'Z' {
        ((c as u32) + 32) as char
    } else {
        c
    }
}

/// `s` lower-cased (ASCII only) equals `t`.
pub open spec fn lower_eq(s: Seq<char>, t: Seq<char>) -> bool {
    s.len() == t.len() && forall|i: int| 0 <= i < s.len() ==> ascii_lower(#[trigger] s[i]) == t[i]
}

/// The format a file extension names.
pub open spec fn format_from_extension_spec(ext: Option<Seq<char>>) -> Result<Format, LoaderError> {
    match ext {
        Some(e) => if lower_eq(e, seq!['e', 'l', 'f']) {
            Ok(Format::Elf)
        } else if lower_eq(e, seq!['h', 'e', 'x']) {
            Ok(Format::IntelHex)
        } else if lower_eq(e, seq!['b', 'i', 'n']) {
            Ok(Format::Binary)
        } else {
            Err(LoaderError::UnknownFormat)
        },
        None => Err(LoaderError::UnknownFormat),
    }
}

/// The view of an optional string slice.
pub open spec fn opt_str_view(ext: Option<&str>) -> Option<Seq<char>> {
    match ext {
        Some(s) => Some(s@),
        None => None,
    }
}

pub(crate) fn lower_eq_str(s: &str, t: &str) -> (r: bool)
    ensures
        r == lower_eq(s@, t@),
{
    let n = s.unicode_len();
    if n != t.unicode_len() {
        return false;
    }
    let mut i: usize = 0;
    while i < n
        invariant
            n == s@.len(),
            n == t@.len(),
            i <= n,
            forall|j: int| 0 <= j < i ==> ascii_lower(#[trigger] s@[j]) == t@[j],
        decreases n - i,
    {
        let c = s.get_char(i);
        let lc = if 'A' <= c && c <= 'Z' {
            let v = (c as u32) + 32;
            proof {
                assert(('a' as u32) <= v <= ('z' as u32));
            }
            char_of_ascii(v)
        } else {
            c
        };
        if lc != t.get_char(i) {
            return false;
        }
        i = i + 1;
    }
    true
}

/// The character of an ASCII code point.
fn char_of_ascii(v: u32) -> (c: char)
    requires
        v < 128,
    ensures
        c == v as char,
{
    (v as u8) as char
}

/// The format a file extension names (`elf`, `hex`, `bin`, compared
/// case-insensitively); anything else is `UnknownFormat`.
pub fn format_from_extension(ext: Option<&str>) -> (r: Result<Format, LoaderError>)
    ensures
        r == format_from_extension_spec(opt_str_view(ext)),
{
    match ext {
        Some(e) => {
            let elf = "elf";
            let hex = "hex";
            let bin = "bin";
            proof {
                reveal_strlit("elf");
                reveal_strlit("hex");
                reveal_strlit("bin");
                assert(elf@ == seq!['e', 'l', 'f']);
                assert(hex@ == seq!['h', 'e', 'x']);
                assert(bin@ == seq!['b', 'i', 'n']);
            }
            if lower_eq_str(e, elf) {
                Ok(Format::Elf)
            } else if lower_eq_str(e, hex) {
                Ok(Format::IntelHex)
            } else if lower_eq_str(e, bin) {
                Ok(Format::Binary)
            } else {
                Err(LoaderError::UnknownFormat)
            }
        },
        None => Err(LoaderError::UnknownFormat),
    }
}

/// Name for the extension `std::path::Path::extension` finds in a path,
/// as text. It depends on the path alone, under the path rules of the
/// target the crate is built for.
pub uninterp spec fn path_ext(path: Seq<char>) -> Option<Seq<char>>;

/// Calls `std::path::Path::extension` on `path` and takes the extension
/// as text (always possible: the path is UTF-8). Its documentation gives
/// the portion of the file name after the final `.`, and no extension
/// when the file name holds no `.` or only a leading one. The file name
/// is the last component; for a simple path (see [`simple_path`]) that is
/// the text after the last `/` on every platform. Which component is the
/// file name of another path (backslashes, drive prefixes, trailing
/// `/.`) depends on the build target's path rules; there the result is
/// only named ([`path_ext`]).
#[verifier::external_body]
fn path_extension(path: &str) -> (r: Option<&str>)
    ensures
        opt_str_view(r) == path_ext(path@),
        !path@.contains('.') ==> r is None,
        simple_path(path@) ==> opt_str_view(r) == simple_extension(path@),
        r matches Some(e) ==> !e@.contains('.') && !e@.contains('/'),
{
    std::path::Path::new(path).extension().and_then(|e| e.to_str())
}

/// Pick the input format from the magic bytes, then the extension of
/// `path`.
pub fn detect_format(path: &str, bytes: &[u8]) -> (r: Result<Format, LoaderError>)
    ensures
        has_elf_magic(bytes@) ==> r == Ok::<Format, LoaderError>(Format::Elf),
        !has_elf_magic(bytes@) && starts_like_hex(bytes@) ==> r == Ok::<Format, LoaderError>(Format::IntelHex),
        !has_elf_magic(bytes@) && !starts_like_hex(bytes@) && simple_path(path@) ==> r
            == format_from_extension_spec(simple_extension(path@)),
        !has_elf_magic(bytes@) && !starts_like_hex(bytes@) && !path@.contains('.') ==> r
            == format_from_extension_spec(None),
        !has_elf_magic(bytes@) && !starts_like_hex(bytes@) ==> r == format_from_extension_spec(path_ext(path@)),
{
    if bytes.len() >= 4 && bytes[0] == 0x7F && bytes[1] == 0x45 && bytes[2] == 0x4C && bytes[3] == 0x46 {
        return Ok(Format::Elf);
    }
    let start: usize = if bytes.len() >= 3 && bytes[0] == 0xEF && bytes[1] == 0xBB && bytes[2] == 0xBF {
        3
    } else {
        0
    };
    let ghost b = strip_bom(bytes@);
    proof {
        assert(b =~= bytes@.subrange(start as int, bytes@.len() as int));
    }
    let mut k: usize = start;
    while k < bytes.len()
        invariant
            start <= k <= bytes@.len(),
            b == bytes@.subrange(start as int, bytes@.len() as int),
            forall|j: int| 0 <= j < k - start ==> is_ascii_ws(#[trigger] b[j]),
        ensures
            start <= k <= bytes@.len(),
            forall|j: int| 0 <= j < k - start ==> is_ascii_ws(#[trigger] b[j]),
            k < bytes@.len() ==> !is_ascii_ws(b[k - start]),
        decreases bytes@.len() - k,
    {
        let c = bytes[k];
        assert(c == b[k - start]);
        if !(c == 0x20 || c == 0x09 || c == 0x0A || c == 0x0C || c == 0x0D) {
            break;
        }
        k = k + 1;
    }
    if k < bytes.len() && bytes[k] == 0x3A {
        proof {
            assert(b[k - start] == 0x3A);
        }
        return Ok(Format::IntelHex);
    }
    proof {
        let n = (k - start) as int;
        assert forall|k2: int|
            0 <= k2 < b.len() && b[k2] == 0x3A implies !(forall|j: int|
            0 <= j < k2 ==> is_ascii_ws(#[trigger] b[j])) by {
            if k2 < n {
                assert(is_ascii_ws(b[k2]));
            } else if k2 > n {
                assert(!is_ascii_ws(b[n]));
            } else {
                assert(b[n] == bytes@[k as int]);
            }
        }
    }
    let ext = path_extension(path);
    let r = format_from_extension(ext);
    proof {
        assert(r == format_from_extension_spec(opt_str_view(ext)));
    }
    r
}

/// Where the `__firmware_info` record of an image at `base` lies, when the
/// image covers all of it.
pub open spec fn fw_info_offset(base: u32, len: nat) -> Option<int> {
    if base > FW_INFO_ADDR {
        None
    } else if (FW_INFO_ADDR - base) + 64 > len {
        None
    } else {
        Some(FW_INFO_ADDR - base)
    }
}

/// The firmware-info record of an image at `base` holding `data`.
pub open spec fn fw_info_spec(base: u32, data: Seq<u8>) -> Option<FirmwareInfo> {
    match fw_info_offset(base, data.len()) {
        Some(off) => Some(FirmwareInfo::layout(data.subrange(off, off + 64))),
        None => None,
    }
}

/// Decode the `__firmware_info` record at `FW_INFO_ADDR` when the image
/// covers it; `None` otherwise.
pub fn extract_fw_info(base: u32, data: &[u8]) -> (r: Option<FirmwareInfo>)
    ensures
        r == fw_info_spec(base, data@),
{
    if base > FW_INFO_ADDR {
        return None;
    }
    let off = (FW_INFO_ADDR - base) as usize;
    if off > data.len() || data.len() - off < FirmwareInfo::SIZE {
        return None;
    }
    let rec = vstd::slice::slice_subrange(data, off, off + FirmwareInfo::SIZE);
    FirmwareInfo::parse(rec)
}

/// Wrap raw bytes at `address` into an image; no validation beyond the
/// firmware-info extraction.
pub fn load_bin(bytes: &[u8], address: u32) -> (img: Image)
    ensures
        img.base_addr == address,
        img.data@ == bytes@,
        img.fw_info == fw_info_spec(address, bytes@),
{
    let data = vstd::slice::slice_to_vec(bytes);
    let fw_info = extract_fw_info(address, data.as_slice());
    Image { base_addr: address, data, fw_info }
}


/// A segment as plain values: load address and bytes.
pub open spec fn seg_view(s: (u32, Vec<u8>)) -> (u32, Seq<u8>) {
    (s.0, s.1@)
}

/// The segments of a list as plain values.
pub open spec fn segs_view(segs: Seq<(u32, Vec<u8>)>) -> Seq<(u32, Seq<u8>)> {
    segs.map_values(|s: (u32, Vec<u8>)| seg_view(s))
}

/// Lowest load address of the segments.
pub open spec fn min_addr(segs: Seq<(u32, Seq<u8>)>) -> u32
    decreases segs.len(),
{
    if segs.len() == 0 {
        u32::MAX
    } else {
        let m = min_addr(segs.drop_last());
        if segs.last().0 < m {
            segs.last().0
        } else {
            m
        }
    }
}

/// One past the highest byte address the segments cover.
pub open spec fn max_end(segs: Seq<(u32, Seq<u8>)>) -> int
    decreases segs.len(),
{
    if segs.len() == 0 {
        0
    } else {
        let m = max_end(segs.drop_last());
        let e = segs.last().0 + segs.last().1.len();
        if e > m {
            e
        } else {
            m
        }
    }
}

/// `data` with `bytes` written over it from offset `off`.
pub open spec fn overlay(data: Seq<u8>, off: int, bytes: Seq<u8>) -> Seq<u8> {
    Seq::new(data.len(), |j: int| if off <= j < off + bytes.len() { bytes[j - off] } else { data[j] })
}

/// `total` bytes of erased flash (`0xFF`) at `base` with every segment
/// written over it in order; a later segment wins where two overlap.
pub open spec fn composed(segs: Seq<(u32, Seq<u8>)>, base: int, total: nat) -> Seq<u8>
    decreases segs.len(),
{
    if segs.len() == 0 {
        Seq::new(total, |j: int| 0xFFu8)
    } else {
        overlay(composed(segs.drop_last(), base, total), segs.last().0 - base, segs.last().1)
    }
}

/// No segment runs past the 32-bit address space.
pub open spec fn segs_fit(segs: Seq<(u32, Seq<u8>)>) -> bool {
    forall|i: int| 0 <= i < segs.len() ==> #[trigger] segs[i].0 + segs[i].1.len() <= u32::MAX
}

proof fn lemma_min_max(segs: Seq<(u32, Seq<u8>)>)
    ensures
        forall|i: int| 0 <= i < segs.len() ==> min_addr(segs) <= #[trigger] segs[i].0,
        forall|i: int| 0 <= i < segs.len() ==> #[trigger] segs[i].0 + segs[i].1.len() <= max_end(segs),
        segs.len() > 0 ==> min_addr(segs) <= max_end(segs),
        max_end(segs) >= 0,
    decreases segs.len(),
{
    if segs.len() > 0 {
        lemma_min_max(segs.drop_last());
        assert forall|i: int| 0 <= i < segs.len() - 1 implies segs[i] == #[trigger] segs.drop_last()[i] by {}
        let d = segs.drop_last();
        assert forall|i: int| 0 <= i < segs.len() implies min_addr(segs) <= #[trigger] segs[i].0 by {
            if i < segs.len() - 1 {
                assert(d[i] == segs[i]);
            }
        }
        assert forall|i: int| 0 <= i < segs.len() implies #[trigger] segs[i].0 + segs[i].1.len() <= max_end(segs) by {
            if i < segs.len() - 1 {
                assert(d[i] == segs[i]);
            }
        }
    }
}

/// `img` is the composition of the segments `sv`.
pub open spec fn composes(img: Image, sv: Seq<(u32, Seq<u8>)>) -> bool {
    let base = min_addr(sv);
    &&& img.base_addr == base
    &&& img.data@ == composed(sv, base as int, (max_end(sv) - base) as nat)
    &&& img.fw_info == fw_info_spec(base, img.data@)
}

proof fn lemma_composed_len(segs: Seq<(u32, Seq<u8>)>, base: int, total: nat)
    ensures
        composed(segs, base, total).len() == total,
    decreases segs.len(),
{
    if segs.len() > 0 {
        lemma_composed_len(segs.drop_last(), base, total);
    }
}

/// No two segments share an address.
pub open spec fn segs_disjoint(segs: Seq<(u32, Seq<u8>)>) -> bool {
    forall|i: int, j: int|
        0 <= i < segs.len() && 0 <= j < segs.len() && i != j ==> #[trigger] segs[i].0 + segs[i].1.len() <= #[trigger] segs[j].0
            || segs[j].0 + segs[j].1.len() <= segs[i].0
}

/// Some segment holds a byte for address `a`.
pub open spec fn covered(segs: Seq<(u32, Seq<u8>)>, a: int) -> bool {
    exists|i: int| 0 <= i < segs.len() && #[trigger] segs[i].0 <= a < segs[i].0 + segs[i].1.len()
}

proof fn lemma_composed_gap(segs: Seq<(u32, Seq<u8>)>, base: int, total: nat, j: int)
    requires
        0 <= j < total,
        !covered(segs, base + j),
    ensures
        composed(segs, base, total)[j] == 0xFF,
    decreases segs.len(),
{
    if segs.len() > 0 {
        let d = segs.drop_last();
        assert(!covered(d, base + j)) by {
            if covered(d, base + j) {
                let i = choose|i: int| 0 <= i < d.len() && #[trigger] d[i].0 <= base + j < d[i].0 + d[i].1.len();
                assert(segs[i] == d[i]);
            }
        }
        lemma_composed_gap(d, base, total, j);
        lemma_composed_len(d, base, total);
        assert(!(segs[segs.len() - 1].0 <= base + j < segs[segs.len() - 1].0 + segs[segs.len() - 1].1.len()));
    }
}

proof fn lemma_composed_at(segs: Seq<(u32, Seq<u8>)>, base: int, total: nat, i: int, k: int)
    requires
        segs_disjoint(segs),
        0 <= i < segs.len(),
        0 <= k < segs[i].1.len(),
        0 <= segs[i].0 - base + k < total,
    ensures
        composed(segs, base, total)[segs[i].0 - base + k] == segs[i].1[k],
    decreases segs.len(),
{
    let d = segs.drop_last();
    let last = segs.len() - 1;
    lemma_composed_len(d, base, total);
    if i < last {
        assert forall|a: int, b: int|
            0 <= a < d.len() && 0 <= b < d.len() && a != b implies #[trigger] d[a].0 + d[a].1.len() <= #[trigger] d[b].0
            || d[b].0 + d[b].1.len() <= d[a].0 by {
            assert(segs[a] == d[a] && segs[b] == d[b]);
        }
        assert(d[i] == segs[i]);
        lemma_composed_at(d, base, total, i, k);
        assert(segs[i].0 + segs[i].1.len() <= segs[last].0 || segs[last].0 + segs[last].1.len() <= segs[i].0);
    }
}

/// Composing segments that do not overlap: the image starts at the
/// lowest load address and ends at the highest segment end, every
/// segment's bytes sit at its address, and every other byte is erased
/// flash (`0xFF`).
pub proof fn lemma_compose_bytes(img: Image, segs: Seq<(u32, Seq<u8>)>)
    requires
        segs.len() > 0,
        segs_fit(segs),
        segs_disjoint(segs),
        composes(img, segs),
    ensures
        img.base_addr == min_addr(segs),
        img.data@.len() == max_end(segs) - min_addr(segs),
        forall|i: int, k: int|
            0 <= i < segs.len() && 0 <= k < segs[i].1.len() ==> img.data@[segs[i].0 - img.base_addr + k]
                == #[trigger] segs[i].1[k],
        forall|j: int|
            0 <= j < img.data@.len() && !covered(segs, img.base_addr + j) ==> #[trigger] img.data@[j] == 0xFF,
{
    let base = min_addr(segs);
    let total = (max_end(segs) - base) as nat;
    lemma_min_max(segs);
    lemma_composed_len(segs, base as int, total);
    assert forall|i: int, k: int|
        0 <= i < segs.len() && 0 <= k < segs[i].1.len() implies img.data@[segs[i].0 - img.base_addr + k]
            == #[trigger] segs[i].1[k] by {
        lemma_composed_at(segs, base as int, total, i, k);
    }
    assert forall|j: int| 0 <= j < img.data@.len() && !covered(segs, img.base_addr + j) implies #[trigger] img.data@[j]
        == 0xFF by {
        lemma_composed_gap(segs, base as int, total, j);
    }
}

/// Collapse `(addr, bytes)` segments into one buffer at the lowest
/// address; gaps read as erased flash (`0xFF`), a later segment
/// overwrites an earlier one where they overlap.
pub fn compose_image(segments: Vec<(u32, Vec<u8>)>) -> (r: Result<Image, LoaderError>)
    requires
        segs_fit(segs_view(segments@)),
    ensures
        segments@.len() == 0 <==> r matches Err(LoaderError::NoSegments),
        r is Err ==> r matches Err(LoaderError::NoSegments),
        r matches Ok(img) ==> composes(img, segs_view(segments@)),
{
    let n = segments.len();
    if n == 0 {
        return Err(LoaderError::NoSegments);
    }
    let ghost sv = segs_view(segments@);
    proof {
        lemma_min_max(sv);
        assert forall|i: int| 0 <= i < n implies #[trigger] sv[i] == seg_view(segments@[i]) by {}
    }
    let a0 = segments[0].0;
    let l0 = segments[0].1.len();
    proof {
        assert(sv[0] == seg_view(segments@[0]));
        assert(sv[0].0 + sv[0].1.len() <= u32::MAX);
        assert(sv.take(1).drop_last() =~= Seq::<(u32, Seq<u8>)>::empty());
        assert(sv.take(1).last() == sv[0]);
        let e = Seq::<(u32, Seq<u8>)>::empty();
        assert(min_addr(e) == u32::MAX);
        assert(max_end(e) == 0);
        assert(min_addr(sv.take(1)) == a0);
        assert(max_end(sv.take(1)) == a0 + l0);
    }
    let mut base: u32 = a0;
    let mut end: u32 = a0 + l0 as u32;
    let mut i: usize = 1;
    while i < n
        invariant
            1 <= i <= n,
            n == segments@.len(),
            sv == segs_view(segments@),
            segs_fit(sv),
            base == min_addr(sv.take(i as int)),
            end == max_end(sv.take(i as int)),
        decreases n - i,
    {
        let a = segments[i].0;
        let l = segments[i].1.len();
        proof {
            assert(sv[i as int] == seg_view(segments@[i as int]));
            assert(sv[i as int].0 + sv[i as int].1.len() <= u32::MAX);
            assert(sv.take(i + 1).drop_last() =~= sv.take(i as int));
            assert(sv.take(i + 1).last() == sv[i as int]);
        }
        let e = a + l as u32;
        if a < base {
            base = a;
        }
        if e > end {
            end = e;
        }
        i = i + 1;
    }
    proof {
        assert(sv.take(n as int) =~= sv);
    }
    let total = (end - base) as usize;
    let mut data: Vec<u8> = Vec::with_capacity(total);
    let mut t: usize = 0;
    while t < total
        invariant
            t <= total,
            data@ == Seq::new(t as nat, |j: int| 0xFFu8),
        decreases total - t,
    {
        data.push(0xFF);
        t = t + 1;
        assert(data@ =~= Seq::new(t as nat, |j: int| 0xFFu8));
    }
    proof {
        assert(data@ =~= composed(sv.take(0), base as int, total as nat));
    }
    let mut i: usize = 0;
    while i < n
        invariant
            i <= n,
            n == segments@.len(),
            sv == segs_view(segments@),
            segs_fit(sv),
            base == min_addr(sv),
            end == max_end(sv),
            total == end - base,
            forall|k: int| 0 <= k < sv.len() ==> base <= #[trigger] sv[k].0,
            forall|k: int| 0 <= k < sv.len() ==> #[trigger] sv[k].0 + sv[k].1.len() <= end,
            data@ == composed(sv.take(i as int), base as int, total as nat),
        decreases n - i,
    {
        let seg = &segments[i];
        let ghost prev = data@;
        proof {
            lemma_composed_len(sv.take(i as int), base as int, total as nat);
            assert(sv[i as int] == seg_view(segments@[i as int]));
            assert(base <= sv[i as int].0);
            assert(sv[i as int].0 + sv[i as int].1.len() <= end);
        }
        let off = (seg.0 - base) as usize;
        let len = seg.1.len();
        let mut j: usize = 0;
        while j < len
            invariant
                j <= len,
                len == seg.1@.len(),
                off + len <= total,
                off == seg.0 - base,
                prev.len() == total,
                data@ == overlay(prev, off as int, seg.1@.take(j as int)),
            decreases len - j,
        {
            data.set(off + j, seg.1[j]);
            j = j + 1;
            assert(data@ =~= overlay(prev, off as int, seg.1@.take(j as int)));
        }
        proof {
            assert(seg.1@.take(len as int) =~= seg.1@);
            assert(sv.take(i + 1).drop_last() =~= sv.take(i as int));
            assert(sv.take(i + 1).last() == sv[i as int]);
        }
        i = i + 1;
    }
    proof {
        assert(sv.take(n as int) =~= sv);
    }
    let fw_info = extract_fw_info(base, data.as_slice());
    Ok(Image { base_addr: base, data, fw_info })
}


// ---- ELF ----

/// The segments an ELF file declares, in program-header order, each as
/// its address and its file bytes (or the error text of reading them),
/// or the parser's error text, as the `object` crate reads them.
pub uninterp spec fn elf_load_segments(bytes: Seq<u8>) -> Result<Seq<(u64, Result<Seq<u8>, Seq<char>>)>, Seq<char>>;

/// A segment's bytes, or the error of reading them, as plain values.
pub open spec fn seg_data_view(d: Result<Vec<u8>, String>) -> Result<Seq<u8>, Seq<char>> {
    match d {
        Ok(v) => Ok(v@),
        Err(e) => Err(e@),
    }
}

/// The segment list the ELF parser hands over, as plain values.
pub open spec fn elf_segs_view(v: Seq<(u64, Result<Vec<u8>, String>)>) -> Seq<(u64, Result<Seq<u8>, Seq<char>>)> {
    v.map_values(|s: (u64, Result<Vec<u8>, String>)| (s.0, seg_data_view(s.1)))
}

/// The parser's answer as plain values.
pub open spec fn elf_answer_view(r: Result<Vec<(u64, Result<Vec<u8>, String>)>, String>) -> Result<
    Seq<(u64, Result<Seq<u8>, Seq<char>>)>,
    Seq<char>,
> {
    match r {
        Ok(v) => Ok(elf_segs_view(v@)),
        Err(e) => Err(e@),
    }
}

/// Calls `object::File::parse` on `bytes` and, for each of its
/// `segments()`, `address()` and `data()`; the contract only names the
/// answer.
#[verifier::external_body]
fn elf_segments(bytes: &[u8]) -> (r: Result<Vec<(u64, Result<Vec<u8>, String>)>, String>)
    ensures
        elf_answer_view(r) == elf_load_segments(bytes@),
{
    let file = object::File::parse(bytes).map_err(|e| format!("{e}"))?;
    let mut out = Vec::new();
    for seg in file.segments() {
        out.push((seg.address(), seg.data().map(|d| d.to_vec()).map_err(|e| format!("{e}"))));
    }
    Ok(out)
}

/// Why the walk over the ELF segments stopped.
pub enum ElfStop {
    /// A segment's bytes could not be read; the error text.
    DataError(Seq<char>),
    /// A segment does not fit in 32-bit addresses; its address.
    AddressOverflow(u64),
}

/// The loadable segments among the first `k` ELF segments, taken in order:
/// a segment whose bytes cannot be read stops the walk with the error,
/// empty ones are skipped, and the first one that does not fit in 32-bit
/// addresses stops the walk with its address.
pub open spec fn elf_pick(segs: Seq<(u64, Result<Seq<u8>, Seq<char>>)>, k: int) -> Result<Seq<(u32, Seq<u8>)>, ElfStop>
    decreases k,
{
    if k <= 0 {
        Ok(Seq::empty())
    } else {
        match elf_pick(segs, k - 1) {
            Err(a) => Err(a),
            Ok(acc) => {
                let s = segs[k - 1];
                match s.1 {
                    Err(e) => Err(ElfStop::DataError(e)),
                    Ok(d) => if d.len() == 0 {
                        Ok(acc)
                    } else if s.0 + d.len() > u32::MAX {
                        Err(ElfStop::AddressOverflow(s.0))
                    } else {
                        Ok(acc.push((s.0 as u32, d)))
                    },
                }
            },
        }
    }
}

/// What an image built from picked segments is.
pub open spec fn image_from_segments_ok(r: Result<Image, LoaderError>, sv: Seq<(u32, Seq<u8>)>) -> bool {
    if sv.len() == 0 {
        r matches Err(LoaderError::NoSegments)
    } else {
        r matches Ok(img) && composes(img, sv)
    }
}

/// What loading the ELF segments `segs` answers.
pub open spec fn elf_segments_ok(r: Result<Image, LoaderError>, segs: Seq<(u64, Result<Seq<u8>, Seq<char>>)>) -> bool {
    match elf_pick(segs, segs.len() as int) {
        Err(ElfStop::DataError(e)) => r matches Err(LoaderError::Elf(m)) && m@ == e,
        Err(ElfStop::AddressOverflow(a)) => r matches Err(LoaderError::AddressOverflow { addr }) && addr == a,
        Ok(picked) => image_from_segments_ok(r, picked),
    }
}

proof fn lemma_elf_pick_fits(segs: Seq<(u64, Result<Seq<u8>, Seq<char>>)>, k: int)
    requires
        0 <= k <= segs.len(),
    ensures
        elf_pick(segs, k) matches Ok(sv) ==> segs_fit(sv),
    decreases k,
{
    if k > 0 {
        lemma_elf_pick_fits(segs, k - 1);
        if let Ok(acc) = elf_pick(segs, k - 1) {
            let s = segs[k - 1];
            if let Ok(d) = s.1 {
                if d.len() != 0 && s.0 + d.len() <= u32::MAX {
                    let sv = acc.push((s.0 as u32, d));
                    assert forall|i: int| 0 <= i < sv.len() implies #[trigger] sv[i].0 + sv[i].1.len() <= u32::MAX by {
                        if i < acc.len() {
                            assert(sv[i] == acc[i]);
                        }
                    }
                }
            }
        }
    }
}

/// Build an image from the segments an ELF parser listed, in order: a
/// segment whose bytes could not be read is an ELF error, empty segments
/// are skipped, a segment past the 32-bit address space is refused.
pub fn image_from_elf_segments(segs: Vec<(u64, Result<Vec<u8>, String>)>) -> (r: Result<Image, LoaderError>)
    ensures
        elf_segments_ok(r, elf_segs_view(segs@)),
{
    let ghost sv = elf_segs_view(segs@);
    let n = segs.len();
    let mut out: Vec<(u32, Vec<u8>)> = Vec::new();
    proof {
        assert(segs_view(out@) =~= Seq::<(u32, Seq<u8>)>::empty());
    }
    let mut i: usize = 0;
    while i < n
        invariant
            i <= n,
            n == segs@.len(),
            sv == elf_segs_view(segs@),
            elf_pick(sv, i as int) == Ok::<Seq<(u32, Seq<u8>)>, ElfStop>(segs_view(out@)),
        decreases n - i,
    {
        let seg = &segs[i];
        proof {
            assert(sv[i as int] == (seg.0, seg_data_view(seg.1)));
        }
        match &seg.1 {
            Err(e) => {
                proof {
                    lemma_elf_pick_err_sticks(sv, i + 1, n as int);
                }
                return Err(LoaderError::Elf(String::from_str(e.as_str())));
            },
            Ok(d) => {
                let len = d.len();
                if len != 0 {
                    if seg.0 > 0xFFFF_FFFFu64 || (len as u64) > 0xFFFF_FFFFu64 - seg.0 {
                        proof {
                            lemma_elf_pick_err_sticks(sv, i + 1, n as int);
                        }
                        return Err(LoaderError::AddressOverflow { addr: seg.0 });
                    }
                    let ghost before = out@;
                    out.push((seg.0 as u32, vstd::slice::slice_to_vec(d.as_slice())));
                    proof {
                        assert(segs_view(out@) =~= segs_view(before).push((seg.0 as u32, d@)));
                    }
                }
            },
        }
        i = i + 1;
    }
    proof {
        lemma_elf_pick_fits(sv, n as int);
    }
    compose_image(out)
}

proof fn lemma_elf_pick_err_sticks(segs: Seq<(u64, Result<Seq<u8>, Seq<char>>)>, k: int, m: int)
    requires
        0 <= k <= m,
        elf_pick(segs, k) is Err,
    ensures
        elf_pick(segs, m) == elf_pick(segs, k),
    decreases m - k,
{
    if m > k {
        lemma_elf_pick_err_sticks(segs, k, m - 1);
    }
}

/// Parse ELF bytes into an image: every loadable segment with a payload,
/// composed into one `0xFF`-padded buffer.
pub fn load_elf(bytes: &[u8]) -> (r: Result<Image, LoaderError>)
    ensures
        match elf_load_segments(bytes@) {
            Err(e) => r matches Err(LoaderError::Elf(m)) && m@ == e,
            Ok(segs) => elf_segments_ok(r, segs),
        },
{
    match elf_segments(bytes) {
        Err(e) => Err(LoaderError::Elf(e)),
        Ok(segs) => image_from_elf_segments(segs),
    }
}


// ---- Intel HEX ----

/// One Intel HEX record.
#[derive(Clone, Debug)]
pub enum HexRecord {
    /// Up to 255 bytes at a 16-bit offset.
    Data { offset: u16, value: Vec<u8> },
    /// End of file.
    EndOfFile,
    /// Bits 4..19 of a segment base address.
    ExtendedSegmentAddress(u16),
    /// Start address as CS:IP.
    StartSegmentAddress { cs: u16, ip: u16 },
    /// Upper 16 bits of the 32-bit linear address.
    ExtendedLinearAddress(u16),
    /// Linear start address.
    StartLinearAddress(u32),
}

/// A HEX record as plain values.
pub enum HexItem {
    Data { offset: u16, value: Seq<u8> },
    EndOfFile,
    ExtendedSegmentAddress(u16),
    StartSegmentAddress { cs: u16, ip: u16 },
    ExtendedLinearAddress(u16),
    StartLinearAddress(u32),
}

impl View for HexRecord {
    type V = HexItem;

    open spec fn view(&self) -> HexItem {
        match self {
            HexRecord::Data { offset, value } => HexItem::Data { offset: *offset, value: value@ },
            HexRecord::EndOfFile => HexItem::EndOfFile,
            HexRecord::ExtendedSegmentAddress(a) => HexItem::ExtendedSegmentAddress(*a),
            HexRecord::StartSegmentAddress { cs, ip } => HexItem::StartSegmentAddress { cs: *cs, ip: *ip },
            HexRecord::ExtendedLinearAddress(a) => HexItem::ExtendedLinearAddress(*a),
            HexRecord::StartLinearAddress(a) => HexItem::StartLinearAddress(*a),
        }
    }
}

/// One reader item as plain values.
pub open spec fn hex_result_view(r: Result<HexRecord, String>) -> Result<HexItem, Seq<char>> {
    match r {
        Ok(rec) => Ok(rec@),
        Err(e) => Err(e@),
    }
}

/// What `ihex::Reader::new(text)` yields, item by item, with each error
/// as its display text.
pub uninterp spec fn ihex_reader_items(text: Seq<char>) -> Seq<Result<HexItem, Seq<char>>>;

/// Drains `ihex::Reader::new(text)` (which stops after the first error
/// and after the end-of-file record); each record is moved field by field
/// into a [`HexRecord`], each error turned into its display text. The
/// contract only names the answer.
#[verifier::external_body]
fn read_hex_records(text: &str) -> (r: Vec<Result<HexRecord, String>>)
    ensures
        r@.len() == ihex_reader_items(text@).len(),
        forall|i: int| 0 <= i < r@.len() ==> hex_result_view(#[trigger] r@[i]) == ihex_reader_items(text@)[i],
{
    let mut out = Vec::new();
    for item in Reader::new(text) {
        out.push(match item {
            Ok(Record::Data { offset, value }) => Ok(HexRecord::Data { offset, value }),
            Ok(Record::EndOfFile) => Ok(HexRecord::EndOfFile),
            Ok(Record::ExtendedSegmentAddress(a)) => Ok(HexRecord::ExtendedSegmentAddress(a)),
            Ok(Record::StartSegmentAddress { cs, ip }) => Ok(HexRecord::StartSegmentAddress { cs, ip }),
            Ok(Record::ExtendedLinearAddress(a)) => Ok(HexRecord::ExtendedLinearAddress(a)),
            Ok(Record::StartLinearAddress(a)) => Ok(HexRecord::StartLinearAddress(a)),
            Err(e) => Err(format!("{e}")),
        });
    }
    out
}

/// The reader items up to `k`, walked as the loader does: data records
/// become segments at the current upper address, an extended linear
/// address record sets it, end-of-file stops the walk, the other records
/// are ignored. The state is `(upper address, segments, stopped)`; an
/// error is the reader's text, or `None` for a data record that runs past
/// the 32-bit address space.
pub open spec fn hex_pick(items: Seq<Result<HexItem, Seq<char>>>, k: int) -> Result<
    (u32, Seq<(u32, Seq<u8>)>, bool),
    Option<Seq<char>>,
>
    decreases k,
{
    if k <= 0 {
        Ok((0u32, Seq::empty(), false))
    } else {
        match hex_pick(items, k - 1) {
            Err(e) => Err(e),
            Ok(st) => if st.2 {
                Ok(st)
            } else {
                match items[k - 1] {
                    Err(e) => Err(Some(e)),
                    Ok(HexItem::Data { offset, value }) => if st.0 + offset + value.len() > u32::MAX {
                        Err(None)
                    } else {
                        Ok((st.0, st.1.push(((st.0 + offset) as u32, value)), false))
                    },
                    Ok(HexItem::ExtendedLinearAddress(h)) => Ok(((h * 65536) as u32, st.1, false)),
                    Ok(HexItem::EndOfFile) => Ok((st.0, st.1, true)),
                    Ok(_) => Ok(st),
                }
            },
        }
    }
}

proof fn lemma_hex_pick_fits(items: Seq<Result<HexItem, Seq<char>>>, k: int)
    requires
        0 <= k <= items.len(),
    ensures
        hex_pick(items, k) matches Ok(st) ==> segs_fit(st.1),
    decreases k,
{
    if k > 0 {
        lemma_hex_pick_fits(items, k - 1);
        if let Ok(st) = hex_pick(items, k - 1) {
            if !st.2 {
                if let Ok(HexItem::Data { offset, value }) = items[k - 1] {
                    if st.0 + offset + value.len() <= u32::MAX {
                        let sv = st.1.push(((st.0 + offset) as u32, value));
                        assert forall|i: int| 0 <= i < sv.len() implies #[trigger] sv[i].0 + sv[i].1.len() <= u32::MAX by {
                            if i < st.1.len() {
                                assert(sv[i] == st.1[i]);
                            }
                        }
                    }
                }
            }
        }
    }
}

proof fn lemma_hex_pick_err_sticks(items: Seq<Result<HexItem, Seq<char>>>, k: int, m: int)
    requires
        0 <= k <= m,
        hex_pick(items, k) is Err,
    ensures
        hex_pick(items, m) == hex_pick(items, k),
    decreases m - k,
{
    if m > k {
        lemma_hex_pick_err_sticks(items, k, m - 1);
    }
}

proof fn lemma_hex_pick_stop_sticks(items: Seq<Result<HexItem, Seq<char>>>, k: int, m: int)
    requires
        0 <= k <= m,
        hex_pick(items, k) matches Ok(st) && st.2,
    ensures
        hex_pick(items, m) == hex_pick(items, k),
    decreases m - k,
{
    if m > k {
        lemma_hex_pick_stop_sticks(items, k, m - 1);
    }
}

/// What the HEX loader answers for the reader items `items`.
pub open spec fn hex_image_ok(r: Result<Image, LoaderError>, items: Seq<Result<HexItem, Seq<char>>>) -> bool {
    match hex_pick(items, items.len() as int) {
        Err(Some(e)) => r matches Err(LoaderError::IntelHex(m)) && m@ == e,
        Err(None) => r matches Err(LoaderError::IntelHex(_)),
        Ok(st) => image_from_segments_ok(r, st.1),
    }
}

/// Build an image from what the Intel HEX reader yielded: data records
/// land at the current extended linear address, end-of-file stops the
/// walk, a reader error is an `IntelHex` error.
pub fn image_from_hex_records(items: Vec<Result<HexRecord, String>>) -> (r: Result<Image, LoaderError>)
    ensures
        hex_image_ok(r, items@.map_values(|x: Result<HexRecord, String>| hex_result_view(x))),
{
    let ghost iv = items@.map_values(|x: Result<HexRecord, String>| hex_result_view(x));
    let n = items.len();
    let mut base_hi: u32 = 0;
    let mut out: Vec<(u32, Vec<u8>)> = Vec::new();
    proof {
        assert(segs_view(out@) =~= Seq::<(u32, Seq<u8>)>::empty());
    }
    let mut i: usize = 0;
    while i < n
        invariant
            i <= n,
            n == items@.len(),
            iv == items@.map_values(|x: Result<HexRecord, String>| hex_result_view(x)),
            hex_pick(iv, i as int) == Ok::<(u32, Seq<(u32, Seq<u8>)>, bool), Option<Seq<char>>>(
                (base_hi, segs_view(out@), false),
            ),
            base_hi <= 0xFFFF_0000,
        decreases n - i,
    {
        let item = &items[i];
        proof {
            assert(iv[i as int] == hex_result_view(items@[i as int]));
        }
        match item {
            Err(e) => {
                proof {
                    lemma_hex_pick_err_sticks(iv, i + 1, n as int);
                }
                return Err(LoaderError::IntelHex(e.clone()));
            },
            Ok(HexRecord::Data { offset, value }) => {
                let off = *offset as u32;
                let room: u64 = 0xFFFF_FFFFu64 - (base_hi as u64) - (off as u64);
                if (value.len() as u64) > room {
                    proof {
                        lemma_hex_pick_err_sticks(iv, i + 1, n as int);
                    }
                    return Err(LoaderError::IntelHex(String::from_str("data record runs past the 32-bit address space")));
                }
                let ghost before = out@;
                out.push((base_hi + off, vstd::slice::slice_to_vec(value.as_slice())));
                proof {
                    assert(segs_view(out@) =~= segs_view(before).push(((base_hi + off) as u32, value@)));
                }
            },
            Ok(HexRecord::ExtendedLinearAddress(h)) => {
                base_hi = (*h as u32) * 65536;
            },
            Ok(HexRecord::EndOfFile) => {
                proof {
                    lemma_hex_pick_stop_sticks(iv, i + 1, n as int);
                    lemma_hex_pick_fits(iv, i + 1);
                }
                return compose_image(out);
            },
            Ok(_) => {},
        }
        i = i + 1;
    }
    proof {
        lemma_hex_pick_fits(iv, n as int);
    }
    compose_image(out)
}

/// Parse Intel HEX bytes into an image: the text must be UTF-8; data,
/// extended-linear-address and end-of-file records are honoured, the
/// other record kinds ignored.
pub fn load_ihex(bytes: &[u8]) -> (r: Result<Image, LoaderError>)
    ensures
        !valid_utf8(bytes@) ==> (r matches Err(LoaderError::IntelHex(m)) && m@ == "input is not valid UTF-8: "@
            + utf8_error_text(bytes@)),
        valid_utf8(bytes@) ==> hex_image_ok(r, ihex_reader_items(decode_utf8(bytes@))),
{
    match utf8_text(bytes) {
        Err(e) => {
            let mut msg = String::from_str("input is not valid UTF-8: ");
            msg.append(e.as_str());
            Err(LoaderError::IntelHex(msg))
        },
        Ok(text) => {
            let items = read_hex_records(text);
            proof {
                assert(items@.map_values(|x: Result<HexRecord, String>| hex_result_view(x)) =~= ihex_reader_items(
                    text@,
                ));
            }
            image_from_hex_records(items)
        },
    }
}

/// What the ELF loader answers for the file bytes `bytes`.
pub open spec fn elf_image_ok(r: Result<Image, LoaderError>, bytes: Seq<u8>) -> bool {
    match elf_load_segments(bytes) {
        Err(e) => r matches Err(LoaderError::Elf(m)) && m@ == e,
        Ok(segs) => elf_segments_ok(r, segs),
    }
}

/// What the Intel HEX loader answers for the file bytes `bytes`.
pub open spec fn hex_bytes_ok(r: Result<Image, LoaderError>, bytes: Seq<u8>) -> bool {
    if valid_utf8(bytes) {
        hex_image_ok(r, ihex_reader_items(decode_utf8(bytes)))
    } else {
        r matches Err(LoaderError::IntelHex(m)) && m@ == "input is not valid UTF-8: "@ + utf8_error_text(bytes)
    }
}

/// What loading `bytes` as format `f` answers.
pub open spec fn format_image_ok(r: Result<Image, LoaderError>, f: Format, bytes: Seq<u8>, hint: Option<u32>) -> bool {
    match f {
        Format::Elf => elf_image_ok(r, bytes),
        Format::IntelHex => hex_bytes_ok(r, bytes),
        Format::Binary => match hint {
            None => r matches Err(LoaderError::BinaryNeedsAddress),
            Some(a) => r matches Ok(img) && img.base_addr == a && img.data@ == bytes && img.fw_info
                == fw_info_spec(a, bytes),
        },
    }
}

/// What loading `bytes` gives when the extension decided the format `fmt`.
pub open spec fn ext_image_ok(
    r: Result<Image, LoaderError>,
    fmt: Result<Format, LoaderError>,
    bytes: Seq<u8>,
    address_hint: Option<u32>,
) -> bool {
    match fmt {
        Ok(f) => format_image_ok(r, f, bytes, address_hint),
        Err(_) => r matches Err(LoaderError::UnknownFormat),
    }
}

/// Load a firmware file whose contents are `bytes`: detect the format
/// from the magic and the path's extension, then parse; a raw binary
/// needs `address_hint`.
pub fn load_contents(path: &str, bytes: &[u8], address_hint: Option<u32>) -> (r: Result<Image, LoaderError>)
    ensures
        has_elf_magic(bytes@) ==> elf_image_ok(r, bytes@),
        !has_elf_magic(bytes@) && starts_like_hex(bytes@) ==> hex_bytes_ok(r, bytes@),
        !has_elf_magic(bytes@) && !starts_like_hex(bytes@) && simple_path(path@) ==> ext_image_ok(
            r,
            format_from_extension_spec(simple_extension(path@)),
            bytes@,
            address_hint,
        ),
        !has_elf_magic(bytes@) && !starts_like_hex(bytes@) && !path@.contains('.') ==> r matches Err(
            LoaderError::UnknownFormat,
        ),
        !has_elf_magic(bytes@) && !starts_like_hex(bytes@) ==> ext_image_ok(
            r,
            format_from_extension_spec(path_ext(path@)),
            bytes@,
            address_hint,
        ),
{
    let fmt = detect_format(path, bytes);
    let r = match fmt {
        Err(e) => Err(e),
        Ok(Format::Elf) => load_elf(bytes),
        Ok(Format::IntelHex) => load_ihex(bytes),
        Ok(Format::Binary) => match address_hint {
            None => Err(LoaderError::BinaryNeedsAddress),
            Some(addr) => Ok(load_bin(bytes, addr)),
        },
    };
    proof {
        if !has_elf_magic(bytes@) && !starts_like_hex(bytes@) {
            assert(ext_image_ok(r, format_from_extension_spec(path_ext(path@)), bytes@, address_hint));
            if !path@.contains('.') {
                assert(format_from_extension_spec(None) == Err::<Format, LoaderError>(LoaderError::UnknownFormat));
            }
        }
    }
    r
}

/// The firmware-info record sits 0x400 bytes into the application region
/// (`0x0802_0400`): an image that starts at or below that address and
/// covers its 64 bytes yields the record read from exactly those bytes,
/// so its git hash is image bytes `0x418..0x420` past the app base, in
/// order; any other image yields none.
pub proof fn lemma_fw_info_location(base: u32, data: Seq<u8>)
    ensures
        base <= 0x0802_0400 && 0x0802_0400 - base + 64 <= data.len() ==> {
            let off: int = 0x0802_0400 - base;
            &&& fw_info_spec(base, data) == Some(FirmwareInfo::layout(data.subrange(off, off + 64)))
            &&& fw_info_spec(base, data).unwrap().git_hash@ == data.subrange(off + 24, off + 32)
        },
        base > 0x0802_0400 || 0x0802_0400 - base + 64 > data.len() ==> fw_info_spec(base, data) is None,
{
    if base <= 0x0802_0400 && 0x0802_0400 - base + 64 <= data.len() {
        let off: int = 0x0802_0400 - base;
        let rec = data.subrange(off, off + 64);
        FirmwareInfo::lemma_layout_fields(rec);
        assert(rec.subrange(24, 32) =~= data.subrange(off + 24, off + 32));
    }
}

/// Intel HEX linear addressing: once an extended linear address record
/// `h` has been read (before end-of-file), the next data record with
/// offset `off` becomes a segment at `h · 0x1_0000 + off` holding its
/// bytes, appended after the segments read so far; before any such
/// record the upper address is zero.
pub proof fn lemma_hex_linear_addressing(
    items: Seq<Result<HexItem, Seq<char>>>,
    k: int,
    upper: u32,
    segs: Seq<(u32, Seq<u8>)>,
    h: u16,
    off: u16,
    v: Seq<u8>,
)
    requires
        0 <= k,
        k + 2 <= items.len(),
        hex_pick(items, k) == Ok::<(u32, Seq<(u32, Seq<u8>)>, bool), Option<Seq<char>>>((upper, segs, false)),
        items[k] == Ok::<HexItem, Seq<char>>(HexItem::ExtendedLinearAddress(h)),
        items[k + 1] == Ok::<HexItem, Seq<char>>(HexItem::Data { offset: off, value: v }),
        h * 0x1_0000 + off + v.len() <= u32::MAX,
    ensures
        hex_pick(items, k + 2) == Ok::<(u32, Seq<(u32, Seq<u8>)>, bool), Option<Seq<char>>>(
            ((h * 0x1_0000) as u32, segs.push(((h * 0x1_0000 + off) as u32, v)), false),
        ),
        hex_pick(items, 0) == Ok::<(u32, Seq<(u32, Seq<u8>)>, bool), Option<Seq<char>>>((0u32, Seq::empty(), false)),
{
    assert(hex_pick(items, k + 1) == Ok::<(u32, Seq<(u32, Seq<u8>)>, bool), Option<Seq<char>>>(
        ((h * 65536) as u32, segs, false),
    ));
}

} // verus!
