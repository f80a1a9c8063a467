//! `config` subcommand: option-byte reads and the WRP apply path, the NVM
//! parameter store, and the parsers of their arguments.
use vstd::prelude::*;
use vstd::utf8::{decode_utf8, valid_utf8};
use crate::parse::{
    int_error_message, parse_prefixed_uint, parse_uint, prefixed_uint, same_result, strip_hex_prefix,
    uint_parse, utf8_text, has_hex_prefix, debug_quoted, str_debug,
};
use crate::protocol::ObStatus;
use crate::text::{dec, hex_bytes_text, hex_upper, push_dec, push_hex_bytes, push_hex_upper};

verus! {

/// `config` arguments.
#[derive(Clone, Debug)]
pub struct ConfigArgs {
    pub action: ConfigAction,
}

/// `config` sub-actions.
#[derive(Clone, Debug)]
pub enum ConfigAction {
    /// Option-byte operations.
    Ob { action: ObAction },
    /// NVM key-value store operations.
    Nvm { action: NvmAction },
}

/// Option-byte sub-actions.
#[derive(Clone, Debug)]
pub enum ObAction {
    /// Read the option-byte snapshot.
    Read,
    /// Apply WRP to the sectors of `sector_mask`; the device resets.
    ApplyWrp { sector_mask: u32, yes: bool, reset_wait_ms: u32 },
}

/// NVM sub-actions.
#[derive(Clone, Debug)]
pub enum NvmAction {
    /// Read a parameter by key.
    Read { key: u16 },
    /// Write a parameter.
    Write { key: u16, value: String },
    /// Tombstone a parameter (zero-length value).
    Erase { key: u16 },
    /// Erase the whole NVM sector.
    Format { yes: bool },
}

/// What `u16` key arguments accept: decimal or `0x` hex.
pub open spec fn hex_u16_spec(raw: Seq<char>) -> Result<u16, Seq<char>> {
    match prefixed_uint(raw, 0xFFFF) {
        Err(k) => Err("invalid u16 '"@ + raw + "': "@ + k.message_spec()),
        Ok(n) => Ok(n as u16),
    }
}

/// What `u32` arguments accept: decimal or `0x` hex.
pub open spec fn hex_u32_spec(raw: Seq<char>) -> Result<u32, Seq<char>> {
    match prefixed_uint(raw, 0xFFFF_FFFF) {
        Err(k) => Err("invalid u32 '"@ + raw + "': "@ + k.message_spec()),
        Ok(n) => Ok(n as u32),
    }
}

/// Parse a 16-bit value, hex (`0x1000`) or decimal.
pub fn parse_hex_u16(raw: &str) -> (r: Result<u16, String>)
    ensures
        same_result(r, hex_u16_spec(raw@)),
{
    match parse_prefixed_uint(raw, 0xFFFF) {
        Err(k) => Err(int_error_message("invalid u16 '", raw, k)),
        Ok(n) => Ok(n as u16),
    }
}

/// Parse a 32-bit value, hex (`0x01`) or decimal.
pub fn parse_hex_u32(raw: &str) -> (r: Result<u32, String>)
    ensures
        same_result(r, hex_u32_spec(raw@)),
{
    match parse_prefixed_uint(raw, 0xFFFF_FFFF) {
        Err(k) => Err(int_error_message("invalid u32 '", raw, k)),
        Ok(n) => Ok(n as u32),
    }
}

/// Why an NVM value argument was refused.
#[derive(Clone, Debug)]
pub enum NvmValueError {
    /// `0x` with nothing after it.
    EmptyHex,
    /// An odd number of hex bytes; `digits` counts them, `hex` is the text.
    OddHexDigits { digits: usize, hex: String },
    /// The byte pair at `offset` is not UTF-8 on its own.
    NonAsciiPair { offset: usize },
    /// The pair at `offset` (text `pair`) is not a hex byte.
    BadPair { pair: String, offset: usize },
}

impl NvmValueError {
    /// The message of each error.
    pub open spec fn message_spec(&self) -> Seq<char> {
        match self {
            NvmValueError::EmptyHex => "hex value must have at least one digit pair"@,
            NvmValueError::OddHexDigits { digits, hex } => "hex value must have an even number of digits (got "@
                + dec(*digits as nat) + "): '"@ + hex@ + "'"@,
            NvmValueError::NonAsciiPair { offset } => "non-ASCII in hex pair at offset "@ + dec(*offset as nat),
            NvmValueError::BadPair { pair, offset } => "bad hex pair '"@ + pair@ + "' at offset "@ + dec(
                *offset as nat,
            ),
        }
    }

    /// The message of the error.
    pub fn message(&self) -> (m: String)
        ensures
            m@ == self.message_spec(),
    {
        match self {
            NvmValueError::EmptyHex => String::from_str("hex value must have at least one digit pair"),
            NvmValueError::OddHexDigits { digits, hex } => {
                let mut m = String::from_str("hex value must have an even number of digits (got ");
                push_dec(&mut m, *digits as u64);
                m.append("): '");
                m.append(hex.as_str());
                m.append("'");
                m
            },
            NvmValueError::NonAsciiPair { offset } => {
                let mut m = String::from_str("non-ASCII in hex pair at offset ");
                push_dec(&mut m, *offset as u64);
                m
            },
            NvmValueError::BadPair { pair, offset } => {
                let mut m = String::from_str("bad hex pair '");
                m.append(pair.as_str());
                m.append("' at offset ");
                push_dec(&mut m, *offset as u64);
                m
            },
        }
    }
}

/// The hex pairs of `h` from pair `k` on, decoded onto `acc`.
pub open spec fn hex_pairs(h: Seq<u8>, k: int, acc: Seq<u8>) -> Result<Seq<u8>, (bool, Seq<char>, int)>
    decreases h.len() - 2 * k,
{
    if k < 0 || 2 * k + 2 > h.len() {
        Ok(acc)
    } else {
        let pair = h.subrange(2 * k, 2 * k + 2);
        if !valid_utf8(pair) {
            Err((false, Seq::empty(), 2 * k))
        } else {
            match uint_parse(decode_utf8(pair), 16, 255) {
                Err(_) => Err((true, decode_utf8(pair), 2 * k)),
                Ok(v) => hex_pairs(h, k + 1, acc.push(v as u8)),
            }
        }
    }
}

/// What `config nvm write` accepts as a value: a `0x` / `0X` hex blob
/// (an even number of bytes, each byte pair a hex byte), or the UTF-8
/// bytes of the text.
pub open spec fn nvm_value_ok(raw: &str, r: Result<Vec<u8>, NvmValueError>) -> bool {
    if !has_hex_prefix(raw@) {
        r matches Ok(v) && v@ == vstd::utf8::encode_utf8(raw@)
    } else {
        let hex = raw@.subrange(2, raw@.len() as int);
        let h = vstd::utf8::encode_utf8(hex);
        if h.len() == 0 {
            r matches Err(NvmValueError::EmptyHex)
        } else if h.len() % 2 != 0 {
            r matches Err(NvmValueError::OddHexDigits { digits, hex: t }) && digits == h.len() && t@ == hex
        } else {
            match hex_pairs(h, 0, Seq::empty()) {
                Ok(v) => r matches Ok(out) && out@ == v,
                Err((false, _, off)) => r matches Err(NvmValueError::NonAsciiPair { offset }) && offset == off,
                Err((true, p, off)) => r matches Err(NvmValueError::BadPair { pair, offset }) && pair@ == p && offset
                    == off,
            }
        }
    }
}

/// Pair `i` of the hex digits `h`: its two bytes.
pub open spec fn hex_pair_at(h: Seq<u8>, i: int) -> Seq<u8> {
    h.subrange(2 * i, 2 * i + 2)
}

/// Pair `i` is ASCII text that `u8::from_str_radix(_, 16)` reads.
pub open spec fn hex_pair_ok(h: Seq<u8>, i: int) -> bool {
    valid_utf8(hex_pair_at(h, i)) && uint_parse(decode_utf8(hex_pair_at(h, i)), 16, 255) is Ok
}

/// The byte pair `i` stands for.
pub open spec fn hex_pair_value(h: Seq<u8>, i: int) -> u8 {
    uint_parse(decode_utf8(hex_pair_at(h, i)), 16, 255)->Ok_0 as u8
}

proof fn lemma_hex_pairs_from(h: Seq<u8>, k: int, acc: Seq<u8>)
    requires
        h.len() % 2 == 0,
        0 <= k <= h.len() / 2,
        acc.len() == k,
    ensures
        hex_pairs(h, k, acc) is Ok <==> forall|i: int| k <= i < h.len() / 2 ==> #[trigger] hex_pair_ok(h, i),
        hex_pairs(h, k, acc) matches Ok(v) ==> {
            &&& v.len() == h.len() / 2
            &&& forall|i: int| 0 <= i < k ==> #[trigger] v[i] == acc[i]
            &&& forall|i: int| k <= i < h.len() / 2 ==> #[trigger] v[i] == hex_pair_value(h, i)
        },
    decreases h.len() - 2 * k,
{
    if 2 * k + 2 <= h.len() {
        let pair = h.subrange(2 * k, 2 * k + 2);
        assert(pair == hex_pair_at(h, k));
        if valid_utf8(pair) {
            if let Ok(v) = uint_parse(decode_utf8(pair), 16, 255) {
                let acc2 = acc.push(v as u8);
                lemma_hex_pairs_from(h, k + 1, acc2);
                assert(hex_pair_ok(h, k));
                if hex_pairs(h, k, acc) is Ok {
                    assert forall|i: int| k <= i < h.len() / 2 implies #[trigger] hex_pair_ok(h, i) by {
                        if i > k {
                            assert(k + 1 <= i);
                        }
                    }
                }
                if let Ok(w) = hex_pairs(h, k, acc) {
                    assert(w[k] == acc2[k]);
                    assert forall|i: int| 0 <= i < k implies #[trigger] w[i] == acc[i] by {
                        assert(w[i] == acc2[i]);
                    }
                }
            } else {
                assert(!hex_pair_ok(h, k));
            }
        } else {
            assert(!hex_pair_ok(h, k));
        }
    } else {
        assert(2 * k == h.len());
    }
}

/// The hex form of `config nvm write` decodes pair by pair: with a
/// non-empty even run of digits after the `0x` / `0X` prefix, the value
/// parses exactly when every byte pair is ASCII text that
/// `u8::from_str_radix(_, 16)` reads, and byte `i` of the value is pair
/// `i`'s value.
pub proof fn lemma_nvm_hex_pairs(raw: &str, r: Result<Vec<u8>, NvmValueError>)
    requires
        nvm_value_ok(raw, r),
        has_hex_prefix(raw@),
        vstd::utf8::encode_utf8(raw@.subrange(2, raw@.len() as int)).len() > 0,
        vstd::utf8::encode_utf8(raw@.subrange(2, raw@.len() as int)).len() % 2 == 0,
    ensures
        ({
            let h = vstd::utf8::encode_utf8(raw@.subrange(2, raw@.len() as int));
            &&& r is Ok <==> forall|i: int| 0 <= i < h.len() / 2 ==> #[trigger] hex_pair_ok(h, i)
            &&& r matches Ok(v) ==> v@.len() == h.len() / 2 && forall|i: int|
                0 <= i < h.len() / 2 ==> #[trigger] v@[i] == hex_pair_value(h, i)
        }),
{
    let h = vstd::utf8::encode_utf8(raw@.subrange(2, raw@.len() as int));
    lemma_hex_pairs_from(h, 0, Seq::empty());
}

/// Parse the value argument of `config nvm write`: a `0x`-prefixed hex
/// blob with an even digit count, or a plain UTF-8 string.
pub fn parse_nvm_value(raw: &str) -> (r: Result<Vec<u8>, NvmValueError>)
    ensures
        nvm_value_ok(raw, r),
{
    let (hex, prefixed) = strip_hex_prefix(raw);
    if !prefixed {
        let b = raw.as_bytes();
        return Ok(vstd::slice::slice_to_vec(b));
    }
    let h = hex.as_bytes();
    proof {
        assert(h@ == vstd::utf8::encode_utf8(hex@));
    }
    let n = h.len();
    if n == 0 {
        return Err(NvmValueError::EmptyHex);
    }
    if n % 2 != 0 {
        return Err(NvmValueError::OddHexDigits { digits: n, hex: String::from_str(hex) });
    }
    let mut out: Vec<u8> = Vec::new();
    let mut k: usize = 0;
    while 2 * k < n
        invariant
            n == h@.len(),
            n % 2 == 0,
            2 * k <= n,
            hex_pairs(h@, 0, Seq::empty()) == hex_pairs(h@, k as int, out@),
            has_hex_prefix(raw@),
            hex@ == raw@.subrange(2, raw@.len() as int),
            h@ == vstd::utf8::encode_utf8(hex@),
        decreases n - 2 * k,
    {
        let pair = vstd::slice::slice_subrange(h, 2 * k, 2 * k + 2);
        match utf8_text(pair) {
            Err(_) => {
                return Err(NvmValueError::NonAsciiPair { offset: 2 * k });
            },
            Ok(s) => match parse_uint(s, 16, 255) {
                Err(_) => {
                    return Err(NvmValueError::BadPair { pair: String::from_str(s), offset: 2 * k });
                },
                Ok(v) => {
                    out.push(v as u8);
                },
            },
        }
        k = k + 1;
    }
    Ok(out)
}

/// The sectors among `0..k` that `s` marks write-protected, in order.
pub open spec fn protected_sectors(s: ObStatus, k: int) -> Seq<u8>
    decreases k,
{
    if k <= 0 {
        Seq::empty()
    } else if s.protects((k - 1) as u8) {
        protected_sectors(s, k - 1).push((k - 1) as u8)
    } else {
        protected_sectors(s, k - 1)
    }
}

/// The option-byte snapshot as the `ob read` report shows it.
#[derive(Clone, Debug)]
pub struct ObStatusJson {
    /// `0x` and eight upper-case hex digits.
    pub wrp_sector_mask: String,
    /// Write-protected sectors among 0..=7.
    pub wrp_sectors: Vec<u8>,
    pub user_config: String,
    /// `0x` and two upper-case hex digits.
    pub rdp_level: String,
    pub bor_level: String,
}

/// `0x` followed by `n` in upper-case hex, zero-padded to `width`.
fn hex_field(n: u64, width: u64) -> (s: String)
    ensures
        s@ == "0x"@ + hex_upper(n as nat, width as nat),
{
    let mut s = String::from_str("0x");
    push_hex_upper(&mut s, n, width);
    s
}

impl ObStatusJson {
    /// Render an option-byte status record.
    pub fn from_status(s: &ObStatus) -> (j: ObStatusJson)
        ensures
            j.wrp_sector_mask@ == "0x"@ + hex_upper(s.wrp_sector_mask as nat, 8),
            j.wrp_sectors@ == protected_sectors(*s, 8),
            j.user_config@ == "0x"@ + hex_upper(s.user_config as nat, 8),
            j.rdp_level@ == "0x"@ + hex_upper(s.rdp_level as nat, 2),
            j.bor_level@ == "0x"@ + hex_upper(s.bor_level as nat, 2),
    {
        let mut protected: Vec<u8> = Vec::new();
        let mut sector: u8 = 0;
        while sector < 8
            invariant
                sector <= 8,
                protected@ == protected_sectors(*s, sector as int),
            decreases 8 - sector,
        {
            if s.is_sector_protected(sector) {
                protected.push(sector);
            }
            sector = sector + 1;
        }
        ObStatusJson {
            wrp_sector_mask: hex_field(s.wrp_sector_mask as u64, 8),
            wrp_sectors: protected,
            user_config: hex_field(s.user_config as u64, 8),
            rdp_level: hex_field(s.rdp_level as u64, 2),
            bor_level: hex_field(s.bor_level as u64, 2),
        }
    }
}

/// `#3, #4`: the protected sectors as the report lists them.
pub open spec fn sector_list(v: Seq<u8>) -> Seq<char>
    decreases v.len(),
{
    if v.len() == 0 {
        Seq::empty()
    } else if v.len() == 1 {
        "#"@ + dec(v[0] as nat)
    } else {
        sector_list(v.drop_last()) + ", #"@ + dec(v.last() as nat)
    }
}

/// What `config ob read` prints without `--json`.
pub open spec fn ob_read_text(j: ObStatusJson) -> Seq<char> {
    "Option bytes\n"@ + "────────────\n"@ + "  WRP mask     : "@ + j.wrp_sector_mask@ + "\n"@ + (if j.wrp_sectors@.len() == 0 {
        "  WRP sectors  : (none — no sectors write-protected)\n"@
    } else {
        "  WRP sectors  : "@ + sector_list(j.wrp_sectors@) + "\n"@
    }) + "  User config  : "@ + j.user_config@ + "\n"@ + "  RDP level    : "@ + j.rdp_level@ + "\n"@
        + "  BOR level    : "@ + j.bor_level@ + "\n"@
}

/// Render [`ob_read_text`].
pub fn ob_read_human(j: &ObStatusJson) -> (s: String)
    ensures
        s@ == ob_read_text(*j),
{
    let mut s = String::from_str("Option bytes\n");
    s.append("────────────\n");
    s.append("  WRP mask     : ");
    s.append(j.wrp_sector_mask.as_str());
    s.append("\n");
    let ghost head = s@;
    if j.wrp_sectors.len() == 0 {
        s.append("  WRP sectors  : (none — no sectors write-protected)\n");
    } else {
        s.append("  WRP sectors  : ");
        let ghost start = s@;
        let mut i: usize = 0;
        while i < j.wrp_sectors.len()
            invariant
                i <= j.wrp_sectors@.len(),
                j.wrp_sectors@.len() > 0,
                s@ == start + sector_list(j.wrp_sectors@.take(i as int)),
            decreases j.wrp_sectors@.len() - i,
        {
            if i == 0 {
                s.append("#");
            } else {
                s.append(", #");
            }
            push_dec(&mut s, j.wrp_sectors[i] as u64);
            proof {
                let t = j.wrp_sectors@.take(i + 1);
                assert(t.drop_last() =~= j.wrp_sectors@.take(i as int));
                assert(t.last() == j.wrp_sectors@[i as int]);
                if i == 0 {
                    assert(j.wrp_sectors@.take(0) =~= Seq::<u8>::empty());
                }
                assert(s@ =~= start + sector_list(t));
            }
            i = i + 1;
        }
        assert(j.wrp_sectors@.take(j.wrp_sectors@.len() as int) =~= j.wrp_sectors@);
        s.append("\n");
    }
    s.append("  User config  : ");
    s.append(j.user_config.as_str());
    s.append("\n");
    s.append("  RDP level    : ");
    s.append(j.rdp_level.as_str());
    s.append("\n");
    s.append("  BOR level    : ");
    s.append(j.bor_level.as_str());
    s.append("\n");
    assert(s@ =~= ob_read_text(*j));
    s
}

/// An NVM value as `config nvm read --json` reports it.
#[derive(Clone, Debug, PartialEq)]
pub struct NvmReadJson {
    /// `0x` and four upper-case hex digits.
    pub key: String,
    /// Byte count (as the wire's `u8`).
    pub len: u8,
    /// Lower-case hex, two digits per byte, no separators.
    pub value_hex: String,
    /// The value as text when it is valid UTF-8.
    pub value_utf8: Option<String>,
}

/// The value as text, when it is valid UTF-8.
fn value_text(value: &[u8]) -> (r: Option<String>)
    ensures
        r is Some <==> vstd::utf8::valid_utf8(value@),
        r matches Some(t) ==> t@ == vstd::utf8::decode_utf8(value@),
{
    match crate::parse::utf8_text(value) {
        Ok(t) => Some(String::from_str(t)),
        Err(_) => None,
    }
}

impl NvmReadJson {
    /// The report of `value` read from `key`.
    pub fn new(key: u16, value: &[u8]) -> (j: NvmReadJson)
        ensures
            j.key@ == "0x"@ + hex_upper(key as nat, 4),
            j.len == (value@.len() as u8),
            j.value_hex@ == hex_bytes_text(value@, false, false),
            j.value_utf8 is Some <==> vstd::utf8::valid_utf8(value@),
            j.value_utf8 matches Some(t) ==> t@ == vstd::utf8::decode_utf8(value@),
    {
        let mut hex = String::new();
        push_hex_bytes(&mut hex, value, false, false);
        assert(hex@ =~= hex_bytes_text(value@, false, false));
        #[verifier::truncate]
        let len: u8 = value.len() as u8;
        NvmReadJson { key: hex_field(key as u64, 4), len, value_hex: hex, value_utf8: value_text(value) }
    }
}

/// What `config nvm read` prints without `--json`.
pub open spec fn nvm_read_text(key: u16, value: Seq<u8>) -> Seq<char> {
    "Key 0x"@ + hex_upper(key as nat, 4) + ": "@ + dec(value.len()) + " byte(s)\n"@ + "  hex  : 0x"@
        + hex_bytes_text(value, false, false) + "\n"@ + (if vstd::utf8::valid_utf8(value) {
        "  utf8 : "@ + str_debug(vstd::utf8::decode_utf8(value)) + "\n"@
    } else {
        "  utf8 : (not valid UTF-8)\n"@
    })
}

/// Render [`nvm_read_text`].
pub fn nvm_read_human(key: u16, value: &[u8]) -> (s: String)
    ensures
        s@ == nvm_read_text(key, value@),
{
    let mut s = String::from_str("Key 0x");
    push_hex_upper(&mut s, key as u64, 4);
    s.append(": ");
    push_dec(&mut s, value.len() as u64);
    s.append(" byte(s)\n");
    s.append("  hex  : 0x");
    push_hex_bytes(&mut s, value, false, false);
    s.append("\n");
    match crate::parse::utf8_text(value) {
        Ok(t) => {
            s.append("  utf8 : ");
            let q = debug_quoted(t);
            s.append(q.as_str());
            s.append("\n");
        },
        Err(_) => {
            s.append("  utf8 : (not valid UTF-8)\n");
        },
    }
    assert(s@ =~= nvm_read_text(key, value@));
    s
}

/// The `ob read` report lists exactly the write-protected sectors among
/// `0..k`, each once, in increasing order.
pub proof fn lemma_protected_sectors_exact(s: ObStatus, k: int)
    requires
        0 <= k <= 256,
    ensures
        forall|x: u8| protected_sectors(s, k).contains(x) <==> x < k && s.protects(x),
        forall|i: int, j: int|
            0 <= i < j < protected_sectors(s, k).len() ==> protected_sectors(s, k)[i] < protected_sectors(s, k)[j],
        forall|i: int| 0 <= i < protected_sectors(s, k).len() ==> protected_sectors(s, k)[i] < k,
    decreases k,
{
    if k > 0 {
        lemma_protected_sectors_exact(s, k - 1);
        let p = protected_sectors(s, k - 1);
        if s.protects((k - 1) as u8) {
            let q = p.push((k - 1) as u8);
            assert forall|x: u8| q.contains(x) <==> x < k && s.protects(x) by {
                if q.contains(x) {
                    let i = choose|i: int| 0 <= i < q.len() && q[i] == x;
                    if i < p.len() {
                        assert(p.contains(x));
                    }
                }
                if x < k && s.protects(x) && x != (k - 1) as u8 {
                    assert(p.contains(x));
                    let i = choose|i: int| 0 <= i < p.len() && p[i] == x;
                    assert(q[i] == x);
                }
                if x == (k - 1) as u8 {
                    assert(q[q.len() - 1] == x);
                }
            }
        }
    }
}

} // verus!
