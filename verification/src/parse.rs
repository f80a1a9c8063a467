//! Parsing of command-line text: Unicode whitespace trimming, the
//! `0x` / `0X` radix prefix, and unsigned integers in the syntax that
//! `from_str_radix` accepts, with its three error kinds.
use vstd::prelude::*;
use vstd::utf8::{decode_utf8, valid_utf8};
use crate::text::{dec, digits, hex_char, hex_upper};

verus! {

/// `char::is_whitespace`: the Unicode `White_Space` property.
pub open spec fn is_ws(c: char) -> bool {
    ||| '\u{0009}' <= c <= '\u{000D}'
    ||| c == '\u{0020}'
    ||| c == '\u{0085}'
    ||| c == '\u{00A0}'
    ||| c == '\u{1680}'
    ||| '\u{2000}' <= c <= '\u{200A}'
    ||| c == '\u{2028}'
    ||| c == '\u{2029}'
    ||| c == '\u{202F}'
    ||| c == '\u{205F}'
    ||| c == '\u{3000}'
}

/// `s` without its leading whitespace.
pub open spec fn trim_start(s: Seq<char>) -> Seq<char>
    decreases s.len(),
{
    if s.len() > 0 && is_ws(s[0]) {
        trim_start(s.subrange(1, s.len() as int))
    } else {
        s
    }
}

/// `s` without its trailing whitespace.
pub open spec fn trim_end(s: Seq<char>) -> Seq<char>
    decreases s.len(),
{
    if s.len() > 0 && is_ws(s.last()) {
        trim_end(s.drop_last())
    } else {
        s
    }
}

/// `str::trim`: `s` without leading and trailing whitespace.
pub open spec fn trim_spec(s: Seq<char>) -> Seq<char> {
    trim_end(trim_start(s))
}

/// Whether `c` is Unicode whitespace.
pub fn is_whitespace(c: char) -> (r: bool)
    ensures
        r == is_ws(c),
{
    ('\u{0009}' <= c && c <= '\u{000D}') || c == '\u{0020}' || c == '\u{0085}' || c == '\u{00A0}' || c
        == '\u{1680}' || ('\u{2000}' <= c && c <= '\u{200A}') || c == '\u{2028}' || c == '\u{2029}' || c
        == '\u{202F}' || c == '\u{205F}' || c == '\u{3000}'
}

/// `s` with leading and trailing whitespace removed.
pub fn trim(s: &str) -> (t: &str)
    ensures
        t@ == trim_spec(s@),
{
    let n = s.unicode_len();
    proof {
        assert(s@.subrange(0, n as int) =~= s@);
    }
    let mut a: usize = 0;
    while a < n
        invariant
            a <= n,
            n == s@.len(),
            trim_start(s@) == trim_start(s@.subrange(a as int, n as int)),
        ensures
            a <= n,
            trim_start(s@) == s@.subrange(a as int, n as int),
        decreases n - a,
    {
        let c = s.get_char(a);
        if !is_whitespace(c) {
            proof {
                assert(s@.subrange(a as int, n as int)[0] == c);
            }
            break;
        }
        proof {
            assert(s@.subrange(a as int, n as int).subrange(1, (n - a) as int) =~= s@.subrange(
                a + 1,
                n as int,
            ));
        }
        a = a + 1;
    }
    let mut b: usize = n;
    while b > a
        invariant
            a <= b <= n,
            n == s@.len(),
            trim_end(s@.subrange(a as int, n as int)) == trim_end(s@.subrange(a as int, b as int)),
        ensures
            a <= b <= n,
            trim_end(s@.subrange(a as int, n as int)) == s@.subrange(a as int, b as int),
        decreases b - a,
    {
        let c = s.get_char(b - 1);
        if !is_whitespace(c) {
            proof {
                assert(s@.subrange(a as int, b as int).last() == c);
            }
            break;
        }
        proof {
            assert(s@.subrange(a as int, b as int).drop_last() =~= s@.subrange(a as int, b - 1));
        }
        b = b - 1;
    }
    s.substring_char(a, b)
}

/// `s` starts with `0x` or `0X`.
pub open spec fn has_hex_prefix(s: Seq<char>) -> bool {
    s.len() >= 2 && s[0] == '0' && (s[1] == 'x' || s[1] == 'X')
}

/// The body and radix of an optionally `0x`-prefixed number: hex after
/// the prefix, decimal otherwise.
pub open spec fn radix_split(s: Seq<char>) -> (Seq<char>, nat) {
    if has_hex_prefix(s) {
        (s.subrange(2, s.len() as int), 16)
    } else {
        (s, 10)
    }
}

/// Split off a `0x` / `0X` prefix: `(rest, 16)`, or `(s, 10)` without one.
pub fn split_radix(s: &str) -> (r: (&str, u32))
    ensures
        r.0@ == radix_split(s@).0,
        r.1 as nat == radix_split(s@).1,
{
    let (rest, hex) = strip_hex_prefix(s);
    if hex {
        (rest, 16)
    } else {
        (rest, 10)
    }
}

/// `s` without a leading `0x` / `0X`, and whether one was there.
pub fn strip_hex_prefix(s: &str) -> (r: (&str, bool))
    ensures
        r.1 == has_hex_prefix(s@),
        r.0@ == if has_hex_prefix(s@) { s@.subrange(2, s@.len() as int) } else { s@ },
{
    let n = s.unicode_len();
    if n >= 2 && s.get_char(0) == '0' {
        let c = s.get_char(1);
        if c == 'x' || c == 'X' {
            return (s.substring_char(2, n), true);
        }
    }
    proof {
        assert(s@.subrange(0, n as int) =~= s@);
    }
    (s.substring_char(0, n), false)
}

/// Why an integer did not parse — the three kinds `from_str_radix`
/// reports for unsigned targets.
#[derive(Clone, Copy, Debug, PartialEq, Eq, Structural)]
pub enum IntErrorKind {
    /// The text is empty.
    Empty,
    /// A character is not a digit of the radix (or a lone sign).
    InvalidDigit,
    /// The value exceeds the target type.
    PosOverflow,
}

impl IntErrorKind {
    /// The standard library's message for the kind.
    pub open spec fn message_spec(self) -> Seq<char> {
        match self {
            IntErrorKind::Empty => "cannot parse integer from empty string"@,
            IntErrorKind::InvalidDigit => "invalid digit found in string"@,
            IntErrorKind::PosOverflow => "number too large to fit in target type"@,
        }
    }

    /// The standard library's message for the kind.
    pub fn message(self) -> (m: &'static str)
        ensures
            m@ == self.message_spec(),
    {
        match self {
            IntErrorKind::Empty => "cannot parse integer from empty string",
            IntErrorKind::InvalidDigit => "invalid digit found in string",
            IntErrorKind::PosOverflow => "number too large to fit in target type",
        }
    }
}

/// `char::to_digit`: the value of `c` as a digit in `radix` (2..=36).
pub open spec fn to_digit(c: char, radix: nat) -> Option<nat> {
    let v: int = if '0' <= c <= '9' {
        c as int - 48
    } else if 'a' <= c <= 'z' {
        c as int - 87
    } else if 'A' <= c <= 'Z' {
        c as int - 55
    } else {
        36
    };
    if v < radix {
        Some(v as nat)
    } else {
        None
    }
}

/// Digits `d[i..]` accumulated onto `acc`, left to right: a non-digit is
/// `InvalidDigit`, a step past `max` is `PosOverflow`.
pub open spec fn scan_digits(d: Seq<char>, radix: nat, max: nat, i: int, acc: nat) -> Result<nat, IntErrorKind>
    decreases d.len() - i,
{
    if i >= d.len() {
        Ok(acc)
    } else {
        match to_digit(d[i], radix) {
            None => Err(IntErrorKind::InvalidDigit),
            Some(v) => if acc * radix + v > max {
                Err(IntErrorKind::PosOverflow)
            } else {
                scan_digits(d, radix, max, i + 1, acc * radix + v)
            },
        }
    }
}

/// `from_str_radix` for an unsigned type whose largest value is `max`:
/// an optional `+`, then at least one digit.
pub open spec fn uint_parse(s: Seq<char>, radix: nat, max: nat) -> Result<nat, IntErrorKind> {
    if s.len() == 0 {
        Err(IntErrorKind::Empty)
    } else if (s[0] == '+' || s[0] == '-') && s.len() == 1 {
        Err(IntErrorKind::InvalidDigit)
    } else if s[0] == '+' {
        scan_digits(s, radix, max, 1, 0)
    } else {
        scan_digits(s, radix, max, 0, 0)
    }
}

proof fn lemma_scan_bound(d: Seq<char>, radix: nat, max: nat, i: int, acc: nat)
    requires
        acc <= max,
    ensures
        scan_digits(d, radix, max, i, acc) matches Ok(v) ==> v <= max,
    decreases d.len() - i,
{
    if i < d.len() {
        if let Some(v) = to_digit(d[i], radix) {
            if acc * radix + v <= max {
                lemma_scan_bound(d, radix, max, i + 1, acc * radix + v);
            }
        }
    }
}

/// A parse result as a machine integer.
pub open spec fn as_u64_result(r: Result<nat, IntErrorKind>) -> Result<u64, IntErrorKind> {
    match r {
        Ok(v) => Ok(v as u64),
        Err(k) => Err(k),
    }
}

/// The digit value of `c` in `radix`, if it is one.
fn digit_of(c: char, radix: u32) -> (r: Option<u32>)
    requires
        2 <= radix <= 36,
    ensures
        r matches Some(v) ==> to_digit(c, radix as nat) == Some(v as nat),
        r is None ==> to_digit(c, radix as nat) is None,
{
    let v: u32 = if '0' <= c && c <= '9' {
        (c as u32) - 48
    } else if 'a' <= c && c <= 'z' {
        (c as u32) - 87
    } else if 'A' <= c && c <= 'Z' {
        (c as u32) - 55
    } else {
        36
    };
    if v < radix {
        Some(v)
    } else {
        None
    }
}

/// Parse an unsigned integer in `radix` that must not exceed `max`, as
/// `from_str_radix` does for the type whose largest value is `max`.
pub fn parse_uint(s: &str, radix: u32, max: u64) -> (r: Result<u64, IntErrorKind>)
    requires
        2 <= radix <= 36,
    ensures
        r == as_u64_result(uint_parse(s@, radix as nat, max as nat)),
        r matches Ok(v) ==> v <= max,
        uint_parse(s@, radix as nat, max as nat) matches Ok(v) ==> v <= max,
{
    let n = s.unicode_len();
    proof {
        lemma_scan_bound(s@, radix as nat, max as nat, 0, 0);
        lemma_scan_bound(s@, radix as nat, max as nat, 1, 0);
    }
    if n == 0 {
        return Err(IntErrorKind::Empty);
    }
    let c0 = s.get_char(0);
    if (c0 == '+' || c0 == '-') && n == 1 {
        return Err(IntErrorKind::InvalidDigit);
    }
    let start: usize = if c0 == '+' { 1 } else { 0 };
    let mut acc: u64 = 0;
    let mut i: usize = start;
    proof {
        lemma_scan_bound(s@, radix as nat, max as nat, start as int, 0);
        assert(uint_parse(s@, radix as nat, max as nat) == scan_digits(s@, radix as nat, max as nat, start as int, 0));
    }
    while i < n
        invariant
            start <= i <= n,
            n == s@.len(),
            2 <= radix <= 36,
            acc <= max,
            uint_parse(s@, radix as nat, max as nat) == scan_digits(s@, radix as nat, max as nat, start as int, 0),
            scan_digits(s@, radix as nat, max as nat, start as int, 0) == scan_digits(
                s@,
                radix as nat,
                max as nat,
                i as int,
                acc as nat,
            ),
        decreases n - i,
    {
        let c = s.get_char(i);
        match digit_of(c, radix) {
            None => {
                return Err(IntErrorKind::InvalidDigit);
            },
            Some(v) => {
                proof {
                    assert((acc as u128) * (radix as u128) <= 0xFFFF_FFFF_FFFF_FFFFu128 * 36) by (nonlinear_arith)
                        requires
                            acc <= 0xFFFF_FFFF_FFFF_FFFFu64,
                            radix <= 36,
                    ;
                }
                let next: u128 = (acc as u128) * (radix as u128) + (v as u128);
                if next > max as u128 {
                    return Err(IntErrorKind::PosOverflow);
                }
                acc = next as u64;
            },
        }
        i = i + 1;
    }
    proof {
        lemma_scan_bound(s@, radix as nat, max as nat, i as int, acc as nat);
    }
    Ok(acc)
}


/// A number written in decimal or, after `0x` / `0X`, in hex, with
/// surrounding whitespace ignored, that must not exceed `max`.
pub open spec fn prefixed_uint(raw: Seq<char>, max: nat) -> Result<nat, IntErrorKind> {
    let (body, radix) = radix_split(trim_spec(raw));
    uint_parse(body, radix, max)
}

/// Parse a decimal or `0x`-prefixed hex number (whitespace around it is
/// ignored) that must not exceed `max`.
pub fn parse_prefixed_uint(raw: &str, max: u64) -> (r: Result<u64, IntErrorKind>)
    ensures
        r == as_u64_result(prefixed_uint(raw@, max as nat)),
        r matches Ok(v) ==> v <= max,
        prefixed_uint(raw@, max as nat) matches Ok(v) ==> v <= max,
{
    let trimmed = trim(raw);
    let (body, radix) = split_radix(trimmed);
    parse_uint(body, radix, max)
}

/// An executable result agrees with a specified one, error text by view.
pub open spec fn same_result<T>(r: Result<T, String>, s: Result<T, Seq<char>>) -> bool {
    match s {
        Ok(v) => r == Ok::<T, String>(v),
        Err(m) => r matches Err(e) && e@ == m,
    }
}

/// `"<prefix><raw>': <kind message>"` — the shape of the argument
/// parsers' integer errors.
pub fn int_error_message(prefix: &str, raw: &str, kind: IntErrorKind) -> (m: String)
    ensures
        m@ == prefix@ + raw@ + "': "@ + kind.message_spec(),
{
    let mut m = String::from_str(prefix);
    m.append(raw);
    m.append("': ");
    m.append(kind.message());
    m
}

/// The display text of the `Utf8Error` that `std::str::from_utf8` gives
/// for `bytes`.
pub uninterp spec fn utf8_error_text(bytes: Seq<u8>) -> Seq<char>;

/// Calls `std::str::from_utf8`, which succeeds exactly on valid UTF-8 and
/// then gives the decoded text; the error becomes its display text,
/// which is only named.
#[verifier::external_body]
pub(crate) fn utf8_text(bytes: &[u8]) -> (r: Result<&str, String>)
    ensures
        r is Ok <==> valid_utf8(bytes@),
        r matches Ok(t) ==> t@ == decode_utf8(bytes@),
        r matches Err(e) ==> e@ == utf8_error_text(bytes@),
{
    std::str::from_utf8(bytes).map_err(|e| format!("{e}"))
}

/// The text `String::from_utf8_lossy` makes of `bytes`: the bytes
/// decoded, each invalid sequence replaced by U+FFFD.
pub uninterp spec fn utf8_lossy_text(bytes: Seq<u8>) -> Seq<char>;

/// Calls `String::from_utf8_lossy`; its documentation gives the text
/// itself for valid UTF-8, and otherwise the result is only named.
#[verifier::external_body]
pub(crate) fn lossy_text(bytes: &[u8]) -> (r: String)
    ensures
        r@ == utf8_lossy_text(bytes@),
        valid_utf8(bytes@) ==> r@ == decode_utf8(bytes@),
{
    String::from_utf8_lossy(bytes).into_owned()
}

/// `{:?}` of a string: the text in double quotes with Rust's debug
/// escapes, as the standard library renders it.
pub uninterp spec fn str_debug(s: Seq<char>) -> Seq<char>;

/// Renders `s` with `format!("{s:?}")`; the contract only names the
/// result.
#[verifier::external_body]
pub(crate) fn debug_quoted(s: &str) -> (r: String)
    ensures
        r@ == str_debug(s@),
{
    format!("{s:?}")
}


/// `s` without trailing whitespace.
pub fn trim_end_str(s: &str) -> (t: &str)
    ensures
        t@ == trim_end(s@),
{
    let n = s.unicode_len();
    proof {
        assert(s@.subrange(0, n as int) =~= s@);
    }
    let mut b: usize = n;
    while b > 0
        invariant
            b <= n,
            n == s@.len(),
            trim_end(s@) == trim_end(s@.subrange(0, b as int)),
        ensures
            b <= n,
            trim_end(s@) == s@.subrange(0, b as int),
        decreases b,
    {
        let c = s.get_char(b - 1);
        if !is_whitespace(c) {
            proof {
                assert(s@.subrange(0, b as int).last() == c);
            }
            break;
        }
        proof {
            assert(s@.subrange(0, b as int).drop_last() =~= s@.subrange(0, b - 1));
        }
        b = b - 1;
    }
    s.substring_char(0, b)
}

// ---- Rendering and parsing agree ----

/// Every digit character parses back to its value, in either letter case.
proof fn lemma_hex_char_digit(d: nat, radix: nat, upper: bool)
    requires
        d < radix <= 16,
    ensures
        to_digit(hex_char(d, upper), radix) == Some(d),
{
}

/// Scanning one more valid digit multiplies in the radix and adds it.
proof fn lemma_scan_push(s: Seq<char>, c: char, radix: nat, max: nat, i: int, acc: nat, v: nat, d: nat)
    requires
        0 <= i <= s.len(),
        scan_digits(s, radix, max, i, acc) == Ok::<nat, IntErrorKind>(v),
        to_digit(c, radix) == Some(d),
        v * radix + d <= max,
    ensures
        scan_digits(s.push(c), radix, max, i, acc) == Ok::<nat, IntErrorKind>(v * radix + d),
    decreases s.len() - i,
{
    if i < s.len() {
        assert(s.push(c)[i] == s[i]);
        let e = to_digit(s[i], radix).unwrap();
        lemma_scan_push(s, c, radix, max, i + 1, acc * radix + e, v, d);
    } else {
        assert(s.push(c)[i] == c);
        assert(scan_digits(s.push(c), radix, max, i + 1, acc * radix + d) == Ok::<nat, IntErrorKind>(acc * radix + d));
    }
}

/// The digits of `n` scan back to `n`.
proof fn lemma_digits_scan(n: nat, radix: nat, upper: bool, max: nat)
    requires
        2 <= radix <= 16,
        n <= max,
    ensures
        scan_digits(digits(n, radix, upper), radix, max, 0, 0) == Ok::<nat, IntErrorKind>(n),
    decreases n,
{
    if n < radix {
        lemma_hex_char_digit(n, radix, upper);
        let s = digits(n, radix, upper);
        assert(s == seq![hex_char(n, upper)]);
        assert(scan_digits(s, radix, max, 1, n) == Ok::<nat, IntErrorKind>(n));
    } else {
        let q = n / radix;
        let r = n % radix;
        assert(q * radix + r == n && q <= n && r < radix) by (nonlinear_arith)
            requires
                radix >= 2,
                q == n / radix,
                r == n % radix,
        ;
        crate::text::lemma_div_lt(n, radix);
        lemma_digits_scan(q, radix, upper, max);
        lemma_hex_char_digit(r, radix, upper);
        lemma_scan_push(digits(q, radix, upper), hex_char(r, upper), radix, max, 0, 0, q, r);
    }
}

/// Every character of a rendering is a digit `0`-`9` or, past nine, a
/// letter in the requested case.
pub proof fn lemma_digit_chars(n: nat, radix: nat, upper: bool, k: int)
    requires
        2 <= radix <= 16,
        0 <= k < digits(n, radix, upper).len(),
    ensures
        ({
            let c = digits(n, radix, upper)[k];
            ||| '0' <= c <= '9'
            ||| upper && 'A' <= c <= 'F'
            ||| !upper && 'a' <= c <= 'f'
        }),
    decreases n,
{
    if n >= radix {
        crate::text::lemma_div_lt(n, radix);
        let q = n / radix;
        crate::text::lemma_digits_len(q, radix, upper);
        if k < digits(q, radix, upper).len() {
            lemma_digit_chars(q, radix, upper, k);
        } else {
            assert(n % radix < 16);
        }
    }
}

/// Rendering then parsing gives the number back: the decimal text of `n`
/// parses (as `from_str_radix(.., 10)` does) to `n`, and so does its
/// upper-case hexadecimal text, zero-padded to any width, in base 16;
/// whenever `n` fits the target type.
pub proof fn lemma_render_parse_round_trip(n: nat, width: nat, max: nat)
    requires
        n <= max,
    ensures
        uint_parse(dec(n), 10, max) == Ok::<nat, IntErrorKind>(n),
        uint_parse(hex_upper(n, width), 16, max) == Ok::<nat, IntErrorKind>(n),
{
    crate::text::lemma_digits_len(n, 10, true);
    crate::text::lemma_digits_len(n, 16, true);
    lemma_digits_scan(n, 10, true, max);
    lemma_digit_chars(n, 10, true, 0);
    let h = digits(n, 16, true);
    lemma_digits_scan(n, 16, true, max);
    lemma_digit_chars(n, 16, true, 0);
    if h.len() < width {
        let z = (width - h.len()) as nat;
        let padded = hex_upper(n, width);
        assert(padded == Seq::new(z, |i: int| '0') + h);
        lemma_scan_zeros(h, z, max);
    }
}

/// Leading zeros change nothing: `0…0 ++ s` scans to what `s` scans to.
proof fn lemma_scan_zeros(s: Seq<char>, z: nat, max: nat)
    ensures
        scan_digits(Seq::new(z, |i: int| '0') + s, 16, max, 0, 0) == scan_digits(s, 16, max, 0, 0),
{
    lemma_scan_zeros_from(s, z, max, 0);
}

proof fn lemma_scan_zeros_from(s: Seq<char>, z: nat, max: nat, i: int)
    requires
        0 <= i <= z,
    ensures
        scan_digits(Seq::new(z, |i: int| '0') + s, 16, max, i, 0) == scan_digits(s, 16, max, 0, 0),
    decreases z - i,
{
    let t = Seq::new(z, |i: int| '0') + s;
    if i < z {
        assert(t[i] == '0');
        lemma_scan_zeros_from(s, z, max, i + 1);
    } else {
        lemma_scan_shift(s, z, max, 0, 0);
    }
}

/// Scanning `prefix ++ s` from just past the prefix is scanning `s`.
proof fn lemma_scan_shift(s: Seq<char>, z: nat, max: nat, j: int, acc: nat)
    requires
        0 <= j <= s.len(),
    ensures
        scan_digits(Seq::new(z, |i: int| '0') + s, 16, max, z + j, acc) == scan_digits(s, 16, max, j, acc),
    decreases s.len() - j,
{
    let t = Seq::new(z, |i: int| '0') + s;
    if j < s.len() {
        assert(t[z + j] == s[j]);
        if let Some(v) = to_digit(s[j], 16) {
            if acc * 16 + v <= max {
                lemma_scan_shift(s, z, max, j + 1, acc * 16 + v);
            }
        }
    }
}

/// A text that starts and ends with non-whitespace trims to itself.
proof fn lemma_trim_unchanged(s: Seq<char>)
    requires
        s.len() > 0,
        !is_ws(s[0]),
        !is_ws(s.last()),
    ensures
        trim_spec(s) == s,
{
}

/// Every character of an upper-case hex rendering, padding included, is a
/// digit or a letter `A`-`F`.
proof fn lemma_hex_upper_chars(n: nat, width: nat, k: int)
    requires
        0 <= k < hex_upper(n, width).len(),
    ensures
        ('0' <= hex_upper(n, width)[k] <= '9') || ('A' <= hex_upper(n, width)[k] <= 'F'),
{
    let d = digits(n, 16, true);
    crate::text::lemma_digits_len(n, 16, true);
    if d.len() >= width {
        lemma_digit_chars(n, 16, true, k);
    } else {
        let z = (width - d.len()) as nat;
        assert(hex_upper(n, width) == Seq::new(z, |i: int| '0') + d);
        if k >= z {
            lemma_digit_chars(n, 16, true, k - z);
        }
    }
}

/// The argument parser reads back what the library prints: the decimal
/// text of `n` and its `0x`-prefixed upper-case hex text (any zero
/// padding) both parse to `n` whenever `n` is within the bound.
pub proof fn lemma_prefixed_round_trip(n: nat, width: nat, max: nat)
    requires
        n <= max,
    ensures
        prefixed_uint(dec(n), max) == Ok::<nat, IntErrorKind>(n),
        prefixed_uint("0x"@ + hex_upper(n, width), max) == Ok::<nat, IntErrorKind>(n),
{
    lemma_render_parse_round_trip(n, width, max);
    let d = dec(n);
    crate::text::lemma_digits_len(n, 10, true);
    lemma_digit_chars(n, 10, true, 0);
    lemma_digit_chars(n, 10, true, d.len() - 1);
    lemma_trim_unchanged(d);
    if d.len() >= 2 {
        lemma_digit_chars(n, 10, true, 1);
    }
    assert(!has_hex_prefix(d));
    let h = hex_upper(n, width);
    crate::text::lemma_digits_len(n, 16, true);
    lemma_hex_upper_chars(n, width, h.len() - 1);
    reveal_strlit("0x");
    let t = "0x"@ + h;
    assert(t[0] == '0');
    assert(t.last() == h.last());
    lemma_trim_unchanged(t);
    assert(has_hex_prefix(t));
    assert(t.subrange(2, t.len() as int) =~= h);
}

/// Upper-case hex text is plain: nothing to trim, no `0x` prefix, never
/// empty.
pub proof fn lemma_hex_text_plain(n: nat, width: nat)
    ensures
        hex_upper(n, width).len() > 0,
        trim_spec(hex_upper(n, width)) == hex_upper(n, width),
        !has_hex_prefix(hex_upper(n, width)),
{
    let h = hex_upper(n, width);
    crate::text::lemma_digits_len(n, 16, true);
    lemma_hex_upper_chars(n, width, 0);
    lemma_hex_upper_chars(n, width, h.len() - 1);
    lemma_trim_unchanged(h);
    if h.len() >= 2 {
        lemma_hex_upper_chars(n, width, 1);
    }
}

} // verus!
