//! The candump line format reads back what it writes: parsing a line that
//! `format_candump_line` produced recovers the timestamp text, the
//! interface, the identifier and the payload.
use vstd::prelude::*;
use crate::cli::config::hex_pairs;
use crate::cli::replay::{
    all_digits, byte_len, candump_line_spec, candump_spec, first_e, first_index, is_digit, is_float_text,
    is_mantissa, next_token_spec, pairs_result, tok_end,
};
use crate::parse::{is_ws, scan_digits, to_digit, trim_start, uint_parse, IntErrorKind};
use crate::protocol::CanFrame;
use crate::text::{dec, digit_len, digits, hex_bytes_text, hex_char, hex_upper, lemma_digits_len, pad_left};

verus! {

// ---- Digits ----

/// A digit character of base `radix` as the renderers write it: ASCII, not
/// whitespace, not one of the separators of a candump line, and a digit
/// `to_digit` reads back.
pub open spec fn plain_digit(c: char, radix: nat) -> bool {
    &&& (c as u32) < 128
    &&& !is_ws(c)
    &&& c != '#' && c != '.' && c != '(' && c != ')' && c != '+' && c != '-'
    &&& to_digit(c, radix) is Some
    &&& radix == 10 ==> is_digit(c) && c != 'e' && c != 'E'
}

proof fn lemma_hex_char(d: nat, radix: nat)
    requires
        d < radix,
        2 <= radix <= 16,
    ensures
        plain_digit(hex_char(d, true), radix),
        to_digit(hex_char(d, true), radix) == Some(d),
{
}

/// Every character of `digits(n, radix, true)` is a plain digit.
proof fn lemma_digits_plain(n: nat, radix: nat)
    requires
        2 <= radix <= 16,
    ensures
        plain_digits(digits(n, radix, true), radix),
    decreases n,
{
    if n < radix {
        lemma_hex_char(n, radix);
        assert(plain_digit(digits(n, radix, true)[0], radix));
    } else {
        crate::text::lemma_div_lt(n, radix);
        lemma_digits_plain(n / radix, radix);
        let r = n % radix;
        assert(r < radix) by (nonlinear_arith)
            requires
                radix >= 2,
                r == n % radix,
        ;
        lemma_hex_char(r, radix);
        let s = digits(n, radix, true);
        assert forall|i: int| 0 <= i < s.len() implies plain_digit(#[trigger] s[i], radix) by {
            if i < s.len() - 1 {
                assert(s[i] == digits(n / radix, radix, true)[i]);
            } else {
                assert(s[i] == hex_char(r, true));
            }
        }
    }
}

/// A text made only of plain digits of base `radix`.
pub open spec fn plain_digits(s: Seq<char>, radix: nat) -> bool {
    forall|i: int| 0 <= i < s.len() ==> plain_digit(#[trigger] s[i], radix)
}

/// Zero padding keeps a text plain.
proof fn lemma_pad_plain(s: Seq<char>, w: nat, radix: nat)
    requires
        plain_digits(s, radix),
        2 <= radix <= 16,
    ensures
        plain_digits(pad_left(s, w, '0'), radix),
{
    lemma_hex_char(0, radix);
    let p = pad_left(s, w, '0');
    assert forall|i: int| 0 <= i < p.len() implies plain_digit(#[trigger] p[i], radix) by {
        if s.len() < w && i < w - s.len() {
            assert(p[i] == '0');
        } else if s.len() < w {
            assert(p[i] == s[i - (w - s.len())]);
        }
    }
}

// ---- Scanning digits ----

/// One more digit after an accumulated value.
pub open spec fn scan_step(acc: nat, c: char, radix: nat, max: nat) -> Result<nat, IntErrorKind> {
    match to_digit(c, radix) {
        None => Err(IntErrorKind::InvalidDigit),
        Some(v) => if acc * radix + v > max {
            Err(IntErrorKind::PosOverflow)
        } else {
            Ok(acc * radix + v)
        },
    }
}

/// Scanning `s` followed by `c` is scanning `s`, then one step.
proof fn lemma_scan_push(s: Seq<char>, c: char, radix: nat, max: nat, i: int, acc: nat)
    requires
        0 <= i <= s.len(),
    ensures
        scan_digits(s.push(c), radix, max, i, acc) == match scan_digits(s, radix, max, i, acc) {
            Ok(a) => scan_step(a, c, radix, max),
            Err(e) => Err(e),
        },
    decreases s.len() - i,
{
    let t = s.push(c);
    if i == s.len() {
        assert(t[i] == c);
        match to_digit(c, radix) {
            None => {},
            Some(v) => {
                if acc * radix + v <= max {
                    assert(scan_digits(t, radix, max, i + 1, acc * radix + v) == Ok::<nat, IntErrorKind>(acc * radix + v));
                }
            },
        }
    } else {
        assert(t[i] == s[i]);
        match to_digit(s[i], radix) {
            None => {},
            Some(v) => {
                if acc * radix + v <= max {
                    lemma_scan_push(s, c, radix, max, i + 1, acc * radix + v);
                }
            },
        }
    }
}

/// The digits of `n` scan back to `n`.
proof fn lemma_scan_digits(n: nat, radix: nat, max: nat)
    requires
        2 <= radix <= 16,
        n <= max,
    ensures
        scan_digits(digits(n, radix, true), radix, max, 0, 0) == Ok::<nat, IntErrorKind>(n),
    decreases n,
{
    if n < radix {
        lemma_hex_char(n, radix);
        let s = digits(n, radix, true);
        assert(s.len() == 1);
        assert(scan_digits(s, radix, max, 1, n) == Ok::<nat, IntErrorKind>(n));
    } else {
        crate::text::lemma_div_lt(n, radix);
        let q = n / radix;
        let r = n % radix;
        assert(q * radix + r == n && r < radix) by (nonlinear_arith)
            requires
                radix >= 2,
                q == n / radix,
                r == n % radix,
        ;
        lemma_scan_digits(q, radix, max);
        lemma_hex_char(r, radix);
        lemma_scan_push(digits(q, radix, true), hex_char(r, true), radix, max, 0, 0);
    }
}

/// Scanning is unaffected by a prefix already consumed.
proof fn lemma_scan_shift(x: Seq<char>, d: Seq<char>, radix: nat, max: nat, j: int, acc: nat)
    requires
        0 <= j <= d.len(),
    ensures
        scan_digits(x + d, radix, max, x.len() + j, acc) == scan_digits(d, radix, max, j, acc),
    decreases d.len() - j,
{
    if j < d.len() {
        assert((x + d)[x.len() + j] == d[j]);
        match to_digit(d[j], radix) {
            None => {},
            Some(v) => {
                if acc * radix + v <= max {
                    lemma_scan_shift(x, d, radix, max, j + 1, acc * radix + v);
                }
            },
        }
    }
}

/// Leading zeros scan to nothing.
proof fn lemma_scan_zeros(z: Seq<char>, d: Seq<char>, radix: nat, max: nat, i: int)
    requires
        0 <= i <= z.len(),
        2 <= radix <= 16,
        forall|k: int| 0 <= k < z.len() ==> z[k] == '0',
    ensures
        scan_digits(z + d, radix, max, i, 0) == scan_digits(d, radix, max, 0, 0),
    decreases z.len() - i,
{
    if i < z.len() {
        assert((z + d)[i] == '0');
        lemma_scan_zeros(z, d, radix, max, i + 1);
    } else {
        lemma_scan_shift(z, d, radix, max, 0, 0);
    }
}

/// A zero-padded rendering parses back (`from_str_radix`) to its value.
pub proof fn lemma_parse_padded(n: nat, radix: nat, max: nat, w: nat)
    requires
        2 <= radix <= 16,
        n <= max,
    ensures
        uint_parse(pad_left(digits(n, radix, true), w, '0'), radix, max) == Ok::<nat, IntErrorKind>(n),
{
    let s = digits(n, radix, true);
    lemma_digits_len(n, radix, true);
    lemma_scan_digits(n, radix, max);
    lemma_digits_plain(n, radix);
    lemma_pad_plain(s, w, radix);
    let p = pad_left(s, w, '0');
    assert(plain_digit(p[0], radix));
    if s.len() < w {
        let z = Seq::new((w - s.len()) as nat, |i: int| '0');
        assert(p == z + s);
        lemma_scan_zeros(z, s, radix, max, 0);
    }
}

// ---- ASCII text as bytes ----

/// Every character is ASCII.
pub open spec fn ascii(s: Seq<char>) -> bool {
    forall|i: int| 0 <= i < s.len() ==> (#[trigger] s[i] as u32) < 128
}

/// The UTF-8 encoding of ASCII text is one byte per character, the
/// character's code.
proof fn lemma_encode_ascii(s: Seq<char>)
    requires
        ascii(s),
    ensures
        vstd::utf8::encode_utf8(s).len() == s.len(),
        forall|i: int| 0 <= i < s.len() ==> #[trigger] vstd::utf8::encode_utf8(s)[i] == (s[i] as u32) as u8,
    decreases s.len(),
{
    if s.len() > 0 {
        let v = s[0] as u32;
        assert(v < 128);
        assert(v & 0x7F == v) by (bit_vector)
            requires
                v < 128,
        ;
        let rest = s.drop_first();
        assert forall|i: int| 0 <= i < rest.len() implies (#[trigger] rest[i] as u32) < 128 by {
            assert(rest[i] == s[i + 1]);
        }
        lemma_encode_ascii(rest);
        let e = vstd::utf8::encode_utf8(s);
        assert(e == vstd::utf8::encode_scalar(v) + vstd::utf8::encode_utf8(rest));
        assert forall|i: int| 0 <= i < s.len() implies #[trigger] e[i] == (s[i] as u32) as u8 by {
            if i > 0 {
                assert(e[i] == vstd::utf8::encode_utf8(rest)[i - 1]);
                assert(rest[i - 1] == s[i]);
            }
        }
    }
}

/// Byte length of ASCII text is its character count.
proof fn lemma_byte_len_ascii(s: Seq<char>)
    requires
        ascii(s),
        s.len() < 0x1_0000_0000,
    ensures
        byte_len(s) == s.len(),
{
    lemma_encode_ascii(s);
}

/// A slice of the encoding of ASCII text is the encoding of the slice.
proof fn lemma_encode_ascii_slice(s: Seq<char>, a: int, b: int)
    requires
        ascii(s),
        0 <= a <= b <= s.len(),
    ensures
        vstd::utf8::encode_utf8(s).subrange(a, b) == vstd::utf8::encode_utf8(s.subrange(a, b)),
{
    let t = s.subrange(a, b);
    assert forall|i: int| 0 <= i < t.len() implies (#[trigger] t[i] as u32) < 128 by {
        assert(t[i] == s[a + i]);
    }
    lemma_encode_ascii(s);
    lemma_encode_ascii(t);
    assert(vstd::utf8::encode_utf8(s).subrange(a, b) =~= vstd::utf8::encode_utf8(t));
}

// ---- Hex payload text ----

/// Two upper-case hex digits of a byte.
pub open spec fn hex_pair(b: u8) -> Seq<char> {
    pad_left(digits(b as nat, 16, true), 2, '0')
}

proof fn lemma_hex_pair(b: u8)
    ensures
        hex_pair(b).len() == 2,
        plain_digits(hex_pair(b), 16),
        ascii(hex_pair(b)),
        uint_parse(hex_pair(b), 16, 255) == Ok::<nat, IntErrorKind>(b as nat),
{
    let n = b as nat;
    lemma_digits_len(n, 16, true);
    if n >= 16 {
        assert(n / 16 < 16);
        assert(digit_len(n / 16, 16) == 1);
    }
    assert(digit_len(n, 16) <= 2);
    lemma_digits_plain(n, 16);
    lemma_pad_plain(digits(n, 16, true), 2, 16);
    lemma_parse_padded(n, 16, 255, 2);
}

/// The unspaced hex text of a payload: two characters per byte, in order.
proof fn lemma_hex_text_layout(p: Seq<u8>)
    ensures
        hex_bytes_text(p, true, false).len() == 2 * p.len(),
        forall|k: int, j: int|
            0 <= k < p.len() && 0 <= j < 2 ==> #[trigger] hex_bytes_text(p, true, false)[2 * k + j]
                == #[trigger] hex_pair(p[k])[j],
    decreases p.len(),
{
    if p.len() > 0 {
        let q = p.drop_last();
        lemma_hex_text_layout(q);
        lemma_hex_pair(p.last());
        let t = hex_bytes_text(p, true, false);
        assert(t == hex_bytes_text(q, true, false) + Seq::<char>::empty() + hex_pair(p.last()));
        assert forall|k: int, j: int| 0 <= k < p.len() && 0 <= j < 2 implies #[trigger] t[2 * k + j]
            == #[trigger] hex_pair(p[k])[j] by {
            if k < p.len() - 1 {
                assert(q[k] == p[k]);
                assert(t[2 * k + j] == hex_bytes_text(q, true, false)[2 * k + j]);
            } else {
                assert(t[2 * k + j] == hex_pair(p.last())[j]);
            }
        }
    }
}

/// The hex text of a payload is plain ASCII hex.
proof fn lemma_hex_text_plain(p: Seq<u8>)
    ensures
        plain_digits(hex_bytes_text(p, true, false), 16),
        ascii(hex_bytes_text(p, true, false)),
{
    lemma_hex_text_layout(p);
    let t = hex_bytes_text(p, true, false);
    assert forall|i: int| 0 <= i < t.len() implies plain_digit(#[trigger] t[i], 16) by {
        let k = i / 2;
        let j = i % 2;
        assert(i == 2 * k + j);
        lemma_hex_pair(p[k]);
        assert(t[2 * k + j] == hex_pair(p[k])[j]);
    }
}

/// Decoding the bytes of a payload's hex text gives the payload back.
proof fn lemma_hex_pairs_roundtrip(p: Seq<u8>, k: int)
    requires
        0 <= k <= p.len(),
    ensures
        hex_pairs(vstd::utf8::encode_utf8(hex_bytes_text(p, true, false)), k, p.take(k)) == Ok::<
            Seq<u8>,
            (bool, Seq<char>, int),
        >(p),
    decreases p.len() - k,
{
    broadcast use vstd::utf8::group_utf8_lib;

    let t = hex_bytes_text(p, true, false);
    lemma_hex_text_layout(p);
    lemma_hex_text_plain(p);
    lemma_encode_ascii(t);
    let h = vstd::utf8::encode_utf8(t);
    if k == p.len() {
        assert(p.take(k) =~= p);
    } else {
        lemma_hex_pair(p[k]);
        lemma_encode_ascii_slice(t, 2 * k, 2 * k + 2);
        assert(t[2 * k + 0] == hex_pair(p[k])[0]);
        assert(t[2 * k + 1] == hex_pair(p[k])[1]);
        assert(t.subrange(2 * k, 2 * k + 2) =~= hex_pair(p[k]));
        let pair = h.subrange(2 * k, 2 * k + 2);
        assert(pair == vstd::utf8::encode_utf8(hex_pair(p[k])));
        assert(vstd::utf8::decode_utf8(pair) == hex_pair(p[k]));
        assert(p.take(k).push(p[k]) =~= p.take(k + 1));
        lemma_hex_pairs_roundtrip(p, k + 1);
    }
}

// ---- Tokens ----

/// No character of `s` is whitespace.
pub open spec fn no_ws(s: Seq<char>) -> bool {
    forall|i: int| 0 <= i < s.len() ==> !is_ws(#[trigger] s[i])
}

proof fn lemma_trim_none(s: Seq<char>)
    requires
        s.len() > 0,
        !is_ws(s[0]),
    ensures
        trim_start(s) == s,
{
}

proof fn lemma_trim_space(x: Seq<char>)
    requires
        x.len() > 0,
        !is_ws(x[0]),
    ensures
        trim_start(seq![' '] + x) == x,
{
    let s = seq![' '] + x;
    assert(is_ws(s[0]));
    assert(s.subrange(1, s.len() as int) =~= x);
    lemma_trim_none(x);
    assert(trim_start(s) == trim_start(s.subrange(1, s.len() as int)));
}

/// A token free of whitespace ends where the whitespace (or the text) does.
proof fn lemma_tok_end_at(a: Seq<char>, r: Seq<char>, i: int)
    requires
        no_ws(a),
        0 <= i <= a.len(),
        r.len() == 0 || is_ws(r[0]),
    ensures
        tok_end(a + r, i) == a.len(),
    decreases a.len() - i,
{
    if i < a.len() {
        assert((a + r)[i] == a[i]);
        lemma_tok_end_at(a, r, i + 1);
    } else if r.len() > 0 {
        assert((a + r)[i] == r[0]);
    }
}

/// The next token of `a` followed by a blank and `r` is `a`.
proof fn lemma_next_token(a: Seq<char>, r: Seq<char>)
    requires
        no_ws(a),
        a.len() > 0,
        r.len() == 0 || is_ws(r[0]),
    ensures
        next_token_spec(a + r) == Some((a, r)),
{
    let s = a + r;
    assert(s[0] == a[0]);
    lemma_trim_none(s);
    lemma_tok_end_at(a, r, 0);
    assert(s.subrange(0, a.len() as int) =~= a);
    assert(s.subrange(a.len() as int, s.len() as int) =~= r);
}

/// Digit text is free of whitespace.
proof fn lemma_plain_no_ws(s: Seq<char>, radix: nat)
    requires
        plain_digits(s, radix),
    ensures
        no_ws(s),
        ascii(s),
{
    assert forall|i: int| 0 <= i < s.len() implies !is_ws(#[trigger] s[i]) by {
        assert(plain_digit(s[i], radix));
    }
    assert forall|i: int| 0 <= i < s.len() implies (#[trigger] s[i] as u32) < 128 by {
        assert(plain_digit(s[i], radix));
    }
}

/// Index of the first `c` in `a + seq![c] + b` when `a` holds no `c`.
proof fn lemma_first_index(a: Seq<char>, c: char, b: Seq<char>, i: int)
    requires
        0 <= i <= a.len(),
        forall|k: int| 0 <= k < a.len() ==> #[trigger] a[k] != c,
    ensures
        first_index(a + seq![c] + b, c, i) == a.len(),
    decreases a.len() - i,
{
    let s = a + seq![c] + b;
    if i < a.len() {
        assert(s[i] == a[i]);
        lemma_first_index(a, c, b, i + 1);
    } else {
        assert(s[i] == c);
    }
}

/// No `e` / `E` in decimal text.
proof fn lemma_first_e_none(s: Seq<char>, i: int)
    requires
        0 <= i <= s.len(),
        forall|k: int| 0 <= k < s.len() ==> #[trigger] s[k] != 'e' && s[k] != 'E',
    ensures
        first_e(s, i) == -1,
    decreases s.len() - i,
{
    if i < s.len() {
        lemma_first_e_none(s, i + 1);
    }
}

/// The `secs.micros` text of a candump timestamp is a number `f64` reads.
proof fn lemma_timestamp_is_float(secs: u64, micros: u32)
    ensures
        is_float_text(dec(secs as nat) + "."@ + pad_left(dec(micros as nat), 6, '0')),
        no_ws(dec(secs as nat) + "."@ + pad_left(dec(micros as nat), 6, '0')),
{
    reveal_strlit(".");
    let a = dec(secs as nat);
    let b = pad_left(dec(micros as nat), 6, '0');
    let t = a + "."@ + b;
    lemma_digits_plain(secs as nat, 10);
    lemma_digits_plain(micros as nat, 10);
    lemma_pad_plain(dec(micros as nat), 6, 10);
    lemma_digits_len(secs as nat, 10, true);
    assert(t =~= a + seq!['.'] + b);
    assert forall|k: int| 0 <= k < t.len() implies #[trigger] t[k] != 'e' && t[k] != 'E' && !is_ws(t[k]) && (t[k]
        == '.' || is_digit(t[k])) by {
        if k < a.len() {
            assert(plain_digit(a[k], 10));
        } else if k > a.len() {
            assert(t[k] == b[k - a.len() - 1]);
            assert(plain_digit(b[k - a.len() - 1], 10));
        }
    }
    lemma_first_e_none(t, 0);
    assert forall|k: int| 0 <= k < a.len() implies #[trigger] a[k] != '.' by {
        assert(plain_digit(a[k], 10));
    }
    lemma_first_index(a, '.', b, 0);
    assert(t.subrange(0, a.len() as int) =~= a);
    assert(t.subrange(a.len() as int + 1, t.len() as int) =~= b);
    assert forall|k: int| 0 <= k < a.len() implies is_digit(#[trigger] a[k]) by {
        assert(plain_digit(a[k], 10));
    }
    assert forall|k: int| 0 <= k < b.len() implies is_digit(#[trigger] b[k]) by {
        assert(plain_digit(b[k], 10));
    }
    assert(all_digits(a));
    assert(b.len() > 0);
    assert(all_digits(b));
    assert(t[0] == a[0]);
    assert(is_mantissa(t));
}

/// After one blank, the next token of `a` followed by `r` is `a`.
proof fn lemma_next_token_after_space(a: Seq<char>, r: Seq<char>)
    requires
        no_ws(a),
        a.len() > 0,
        r.len() == 0 || is_ws(r[0]),
    ensures
        next_token_spec(seq![' '] + (a + r)) == Some((a, r)),
{
    let s = a + r;
    assert(s[0] == a[0]);
    lemma_trim_space(s);
    lemma_next_token(a, r);
}

/// Three hex digits hold any 11-bit identifier.
proof fn lemma_hex3(n: nat)
    requires
        n <= 0x7FF,
    ensures
        hex_upper(n, 3).len() == 3,
        plain_digits(hex_upper(n, 3), 16),
        uint_parse(hex_upper(n, 3), 16, 0xFFFF) == Ok::<nat, IntErrorKind>(n),
{
    lemma_digits_len(n, 16, true);
    if n >= 16 {
        assert(n / 16 >= 16 ==> (n / 16) / 16 < 16);
        if n / 16 >= 16 {
            assert(digit_len((n / 16) / 16, 16) == 1);
        }
        assert(digit_len(n / 16, 16) <= 2);
    }
    assert(digit_len(n, 16) <= 3);
    lemma_digits_plain(n, 16);
    lemma_pad_plain(digits(n, 16, true), 3, 16);
    lemma_parse_padded(n, 16, 0xFFFF, 3);
}

/// Parsing a line that `format_candump_line` wrote gives back its
/// timestamp text, the interface, the 11-bit identifier and the payload,
/// for any classic frame and any interface name that is non-empty and
/// free of whitespace.
pub proof fn lemma_candump_roundtrip(frame: CanFrame, iface: Seq<char>, secs: u64, micros: u32)
    requires
        frame.wf(),
        iface.len() > 0,
        no_ws(iface),
    ensures
        candump_spec(candump_line_spec(frame, iface, secs, micros)) == Ok::<
            (Seq<char>, Seq<char>, u16, Seq<u8>),
            Seq<char>,
        >((dec(secs as nat) + "."@ + pad_left(dec(micros as nat), 6, '0'), iface, frame.id & 0x7FF, frame.payload_view())),
{
    reveal_strlit("(");
    reveal_strlit(") ");
    reveal_strlit(" ");
    reveal_strlit("#");
    let ts = dec(secs as nat) + "."@ + pad_left(dec(micros as nat), 6, '0');
    let id = frame.id;
    assert(id & 0x7FF <= 0x7FF) by (bit_vector);
    let n: nat = (id & 0x7FF) as nat;
    let hex3 = hex_upper(n, 3);
    let payload = frame.payload_view();
    let data = hex_bytes_text(payload, true, false);
    let iddata = hex3 + seq!['#'] + data;
    let tok1 = seq!['('] + ts + seq![')'];
    let rest2 = seq![' '] + iddata;
    let rest1 = seq![' '] + (iface + rest2);
    let line = candump_line_spec(frame, iface, secs, micros);
    assert(line =~= tok1 + rest1);
    // The timestamp token.
    lemma_timestamp_is_float(secs, micros);
    assert forall|i: int| 0 <= i < tok1.len() implies !is_ws(#[trigger] tok1[i]) by {
        if 0 < i < tok1.len() - 1 {
            assert(tok1[i] == ts[i - 1]);
        }
    }
    lemma_next_token(tok1, rest1);
    assert(tok1.subrange(1, tok1.len() - 1) =~= ts);
    // The interface token.
    lemma_next_token_after_space(iface, rest2);
    // The `id#data` token.
    lemma_hex3(n);
    lemma_plain_no_ws(hex3, 16);
    lemma_hex_text_layout(payload);
    lemma_hex_text_plain(payload);
    lemma_plain_no_ws(data, 16);
    assert forall|i: int| 0 <= i < iddata.len() implies !is_ws(#[trigger] iddata[i]) by {
        if i < 3 {
            assert(iddata[i] == hex3[i]);
        } else if i > 3 {
            assert(iddata[i] == data[i - 4]);
        }
    }
    assert(iddata[0] == hex3[0]);
    lemma_next_token_after_space(iddata, Seq::empty());
    assert(iddata + Seq::<char>::empty() =~= iddata);
    assert forall|k: int| 0 <= k < hex3.len() implies #[trigger] hex3[k] != '#' by {
        assert(plain_digit(hex3[k], 16));
    }
    lemma_first_index(hex3, '#', data, 0);
    assert(iddata.subrange(0, 3) =~= hex3);
    assert(iddata.subrange(4, iddata.len() as int) =~= data);
    lemma_byte_len_ascii(hex3);
    // The payload.
    lemma_encode_ascii(data);
    let db = vstd::utf8::encode_utf8(data);
    assert(db.len() == 2 * payload.len());
    assert(payload.len() <= 8);
    assert(db.len() % 2 == 0);
    assert(db.len() / 2 == payload.len());
    assert(payload.take(0) =~= Seq::<u8>::empty());
    lemma_hex_pairs_roundtrip(payload, 0);
    assert(hex_pairs(db, 0, Seq::empty()) == Ok::<Seq<u8>, (bool, Seq<char>, int)>(payload));
    assert(n as u16 == id & 0x7FF);
}

} // verus!
