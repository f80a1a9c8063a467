//! `swd-flash` subcommand: put the bootloader (or any firmware) on a bare
//! chip through an SWD probe, from a local file or a bootloader release.
use vstd::prelude::*;
use crate::bootloader_fetch::BootloaderFormat;
use crate::firmware::loader::ascii_lower;
use crate::parse::{debug_quoted, has_hex_prefix, parse_uint, str_debug, strip_hex_prefix, uint_parse};

verus! {

/// `swd-flash` arguments.
#[derive(Clone, Debug)]
pub struct SwdFlashArgs {
    /// Local firmware file.
    pub artifact: Option<String>,
    /// Release tag to fetch (`latest` for the newest).
    pub release: Option<String>,
    /// Format to fetch with `release`.
    pub release_format: BootloaderFormat,
    /// Target chip identifier.
    pub chip: String,
    /// Serial number of the probe to use.
    pub probe_serial: Option<String>,
    /// Base address for a raw binary.
    pub base: String,
    /// Skip the read-back after writing.
    pub skip_verify: bool,
    pub no_reset: bool,
}

/// A `0x`-prefixed hex or plain decimal 64-bit address.
pub open spec fn hex_u64_spec(s: Seq<char>) -> Option<u64> {
    let r = if has_hex_prefix(s) {
        uint_parse(s.subrange(2, s.len() as int), 16, u64::MAX as nat)
    } else {
        uint_parse(s, 10, u64::MAX as nat)
    };
    match r {
        Ok(v) => Some(v as u64),
        Err(_) => None,
    }
}

/// Parse a `0x`-prefixed hex or plain decimal address; `None` on bad
/// input.
pub fn parse_hex_u64(s: &str) -> (r: Option<u64>)
    ensures
        r == hex_u64_spec(s@),
{
    let (body, hex) = strip_hex_prefix(s);
    let radix: u32 = if hex { 16 } else { 10 };
    match parse_uint(body, radix, u64::MAX) {
        Ok(v) => Some(v),
        Err(_) => None,
    }
}

/// `s` with ASCII letters lower-cased.
pub open spec fn lower_text(s: Seq<char>) -> Seq<char> {
    Seq::new(s.len(), |i: int| ascii_lower(s[i]))
}

/// `str::to_ascii_lowercase`.
pub fn to_ascii_lowercase(s: &str) -> (r: String)
    ensures
        r@ == lower_text(s@),
{
    let n = s.unicode_len();
    let mut out = String::new();
    let mut i: usize = 0;
    while i < n
        invariant
            i <= n,
            n == s@.len(),
            out@ == lower_text(s@).take(i as int),
        decreases n - i,
    {
        let c = s.get_char(i);
        let lc = if 'A' <= c && c <= 'Z' {
            ((((c as u32) + 32) as u8) as char)
        } else {
            c
        };
        let ghost before = out@;
        out.append(char_str(lc).as_str());
        proof {
            assert(out@ =~= lower_text(s@).take(i + 1));
        }
        i = i + 1;
    }
    proof {
        assert(lower_text(s@).take(n as int) =~= lower_text(s@));
    }
    out
}

/// A one-character string.
fn char_str(c: char) -> (s: String)
    ensures
        s@ == seq![c],
{
    let mut s = String::new();
    s.push(c);
    s
}

/// What `--release-format` accepts: `elf`, `hex` or `bin` in any case.
pub open spec fn format_spec(s: Seq<char>) -> Result<BootloaderFormat, Seq<char>> {
    let l = lower_text(s);
    if l == "elf"@ {
        Ok(BootloaderFormat::Elf)
    } else if l == "hex"@ {
        Ok(BootloaderFormat::Hex)
    } else if l == "bin"@ {
        Ok(BootloaderFormat::Bin)
    } else {
        Err("unknown --release-format "@ + str_debug(l) + "; expected one of elf, hex, bin"@)
    }
}

/// Parse `--release-format`.
pub fn parse_format(s: &str) -> (r: Result<BootloaderFormat, String>)
    ensures
        crate::parse::same_result(r, format_spec(s@)),
{
    let l = to_ascii_lowercase(s);
    if crate::bootloader_fetch::str_eq(l.as_str(), "elf") {
        Ok(BootloaderFormat::Elf)
    } else if crate::bootloader_fetch::str_eq(l.as_str(), "hex") {
        Ok(BootloaderFormat::Hex)
    } else if crate::bootloader_fetch::str_eq(l.as_str(), "bin") {
        Ok(BootloaderFormat::Bin)
    } else {
        let mut m = String::from_str("unknown --release-format ");
        let q = debug_quoted(l.as_str());
        m.append(q.as_str());
        m.append("; expected one of elf, hex, bin");
        Err(m)
    }
}

/// Where the artefact to flash comes from.
#[derive(Clone, Debug, PartialEq, Eq)]
pub enum ArtifactSource {
    /// A local file.
    Local(String),
    /// A bootloader release; `None` is the latest one.
    Release(Option<String>),
    /// Neither was given.
    Missing,
}

/// Pick the artefact source: a local file wins; `--release latest`
/// means the newest release.
pub fn artifact_source(artifact: Option<&str>, release: Option<&str>) -> (r: ArtifactSource)
    ensures
        artifact matches Some(a) ==> r matches ArtifactSource::Local(p) && p@ == a@,
        artifact is None && release is None ==> r == ArtifactSource::Missing,
        artifact is None ==> (release matches Some(t) ==> (if t@ == "latest"@ {
            r == ArtifactSource::Release(None)
        } else {
            r matches ArtifactSource::Release(Some(p)) && p@ == t@
        })),
{
    match artifact {
        Some(a) => ArtifactSource::Local(String::from_str(a)),
        None => match release {
            None => ArtifactSource::Missing,
            Some(t) => {
                if crate::bootloader_fetch::str_eq(t, "latest") {
                    ArtifactSource::Release(None)
                } else {
                    ArtifactSource::Release(Some(String::from_str(t)))
                }
            },
        },
    }
}

} // verus!
