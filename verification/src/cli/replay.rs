//! `replay` subcommand: record CAN traffic in candump `-l` format and
//! read such a file back, frame by frame.
//!
//! A line is `(seconds.micros) iface ID#DATA`: an 11-bit id of up to
//! three hex digits, then up to eight bytes as packed hex pairs.
use vstd::prelude::*;
use crate::cli::config::hex_pairs;
use crate::cli::InterfaceType;
use crate::firmware::loader::lower_eq;
use crate::parse::{is_ws, is_whitespace, parse_uint, same_result, trim_start, uint_parse, utf8_text};
use crate::protocol::CanFrame;
use crate::text::{dec, hex_bytes_text, hex_upper, pad_left, push_dec, push_hex_bytes, push_hex_upper, push_padded};

verus! {

/// `replay` arguments.
#[derive(Clone, Debug)]
pub struct ReplayArgs {
    pub action: ReplayAction,
}

/// `replay` sub-actions.
#[derive(Clone, Debug)]
pub enum ReplayAction {
    /// Record live traffic to `out`, for `duration_ms` or until Ctrl-C.
    Record { out: String, duration_ms: Option<u64> },
    /// Print each frame of a recorded file.
    Run { file: String },
}

// ---- Interface labels ----

/// The characters a label cannot carry become `_`.
pub open spec fn label_char(c: char) -> char {
    if c == '/' || c == ' ' || c == '#' || c == '(' || c == ')' {
        '_'
    } else {
        c
    }
}

/// `s` without its leading underscores.
pub open spec fn skip_underscores(s: Seq<char>) -> Seq<char>
    decreases s.len(),
{
    if s.len() > 0 && s[0] == '_' {
        skip_underscores(s.subrange(1, s.len() as int))
    } else {
        s
    }
}

/// An interface label safe for the candump format.
pub open spec fn sanitize_spec(raw: Seq<char>) -> Seq<char> {
    skip_underscores(Seq::new(raw.len(), |i: int| label_char(raw[i])))
}

/// Make an interface name safe for a candump line: separators, spaces,
/// `#` and parentheses become `_`, then leading underscores are dropped.
pub fn sanitize_interface(raw: &str) -> (s: String)
    ensures
        s@ == sanitize_spec(raw@),
{
    let n = raw.unicode_len();
    let ghost mapped = Seq::new(raw@.len(), |i: int| label_char(raw@[i]));
    let mut i: usize = 0;
    proof {
        assert(mapped.subrange(0, n as int) =~= mapped);
    }
    while i < n
        invariant
            i <= n,
            n == raw@.len(),
            mapped == Seq::new(raw@.len(), |i: int| label_char(raw@[i])),
            skip_underscores(mapped) == skip_underscores(mapped.subrange(i as int, n as int)),
        ensures
            i <= n,
            skip_underscores(mapped) == mapped.subrange(i as int, n as int),
        decreases n - i,
    {
        let c = raw.get_char(i);
        if !(c == '_' || c == '/' || c == ' ' || c == '#' || c == '(' || c == ')') {
            proof {
                assert(mapped.subrange(i as int, n as int)[0] == label_char(raw@[i as int]));
            }
            break;
        }
        proof {
            assert(mapped.subrange(i as int, n as int)[0] == '_');
            assert(mapped.subrange(i as int, n as int).subrange(1, (n - i) as int) =~= mapped.subrange(
                i + 1,
                n as int,
            ));
        }
        i = i + 1;
    }
    let mut out = String::new();
    let ghost start = i;
    while i < n
        invariant
            start <= i <= n,
            n == raw@.len(),
            mapped == Seq::new(raw@.len(), |i: int| label_char(raw@[i])),
            out@ == mapped.subrange(start as int, i as int),
        decreases n - i,
    {
        let c = raw.get_char(i);
        let d = if c == '/' || c == ' ' || c == '#' || c == '(' || c == ')' { '_' } else { c };
        out.push(d);
        proof {
            assert(out@ =~= mapped.subrange(start as int, i + 1));
        }
        i = i + 1;
    }
    out
}

/// The debug name of an interface family, lower-cased.
pub fn interface_name(iface: InterfaceType) -> (s: &'static str)
    ensures
        iface == InterfaceType::Slcan ==> s@ == "slcan"@,
        iface == InterfaceType::Socketcan ==> s@ == "socketcan"@,
        iface == InterfaceType::Pcan ==> s@ == "pcan"@,
        iface == InterfaceType::Vector ==> s@ == "vector"@,
        iface == InterfaceType::Virtual ==> s@ == "virtual"@,
{
    match iface {
        InterfaceType::Slcan => "slcan",
        InterfaceType::Socketcan => "socketcan",
        InterfaceType::Pcan => "pcan",
        InterfaceType::Vector => "vector",
        InterfaceType::Virtual => "virtual",
    }
}

/// The label a recording uses for its interface: the channel when one was
/// given, else the adapter family, made safe for the format.
pub fn interface_label(channel: Option<&str>, iface: InterfaceType) -> (s: String)
    ensures
        channel matches Some(c) ==> s@ == sanitize_spec(c@),
        channel is None ==> exists|name: &str| s@ == sanitize_spec(name@) && #[trigger] interface_name_spec(iface, name@),
{
    match channel {
        Some(c) => sanitize_interface(c),
        None => {
            let name = interface_name(iface);
            let s = sanitize_interface(name);
            proof {
                assert(interface_name_spec(iface, name@));
            }
            s
        },
    }
}

/// `name` is the lower-cased debug name of `iface`.
pub open spec fn interface_name_spec(iface: InterfaceType, name: Seq<char>) -> bool {
    match iface {
        InterfaceType::Slcan => name == "slcan"@,
        InterfaceType::Socketcan => name == "socketcan"@,
        InterfaceType::Pcan => name == "pcan"@,
        InterfaceType::Vector => name == "vector"@,
        InterfaceType::Virtual => name == "virtual"@,
    }
}

// ---- Hex helpers ----

/// Bytes as packed upper-case hex.
pub fn hex_encode(bytes: &[u8]) -> (s: String)
    ensures
        s@ == hex_bytes_text(bytes@, true, false),
{
    let mut s = String::new();
    push_hex_bytes(&mut s, bytes, true, false);
    s
}

/// Bytes as upper-case hex pairs separated by spaces.
pub fn hex_encode_spaced(bytes: &[u8]) -> (s: String)
    ensures
        s@ == hex_bytes_text(bytes@, true, true),
{
    let mut s = String::new();
    push_hex_bytes(&mut s, bytes, true, true);
    s
}

// ---- Writing lines ----

/// A frame as a candump line at time `secs.micros`.
pub open spec fn candump_line_spec(frame: CanFrame, iface: Seq<char>, secs: u64, micros: u32) -> Seq<char> {
    "("@ + dec(secs as nat) + "."@ + pad_left(dec(micros as nat), 6, '0') + ") "@ + iface + " "@ + hex_upper(
        (frame.id & 0x7FF) as nat,
        3,
    ) + "#"@ + hex_bytes_text(frame.payload_view(), true, false)
}

/// Encode a frame as a candump line stamped `secs.micros` (seconds and
/// microseconds since the Unix epoch).
pub fn format_candump_line(frame: &CanFrame, interface: &str, secs: u64, micros: u32) -> (s: String)
    requires
        frame.wf(),
    ensures
        s@ == candump_line_spec(*frame, interface@, secs, micros),
{
    let mut s = String::from_str("(");
    push_dec(&mut s, secs);
    s.append(".");
    push_padded(&mut s, micros as u64, 10, true, 6, '0');
    s.append(") ");
    s.append(interface);
    s.append(" ");
    push_hex_upper(&mut s, (frame.id & 0x7FF) as u64, 3);
    s.append("#");
    push_hex_bytes(&mut s, frame.payload(), true, false);
    s
}

// ---- Reading lines ----

/// End of the token that starts at `i`: the first whitespace at or after
/// it, or the end.
pub open spec fn tok_end(s: Seq<char>, i: int) -> int
    decreases s.len() - i,
{
    if i >= s.len() || is_ws(s[i]) {
        i
    } else {
        tok_end(s, i + 1)
    }
}

/// The next whitespace-separated token of `s` and what follows it.
pub open spec fn next_token_spec(s: Seq<char>) -> Option<(Seq<char>, Seq<char>)> {
    let t = trim_start(s);
    if t.len() == 0 {
        None
    } else {
        let k = tok_end(t, 0);
        Some((t.subrange(0, k), t.subrange(k, t.len() as int)))
    }
}

proof fn lemma_tok_end(s: Seq<char>, i: int)
    requires
        0 <= i <= s.len(),
    ensures
        i <= tok_end(s, i) <= s.len(),
    decreases s.len() - i,
{
    if i < s.len() && !is_ws(s[i]) {
        lemma_tok_end(s, i + 1);
    }
}

/// `s` without leading whitespace.
pub fn skip_ws(s: &str) -> (t: &str)
    ensures
        t@ == trim_start(s@),
{
    let n = s.unicode_len();
    proof {
        assert(s@.subrange(0, n as int) =~= s@);
    }
    let mut a: usize = 0;
    while a < n
        invariant
            a <= n,
            n == s@.len(),
            trim_start(s@) == trim_start(s@.subrange(a as int, n as int)),
        ensures
            a <= n,
            trim_start(s@) == s@.subrange(a as int, n as int),
        decreases n - a,
    {
        let c = s.get_char(a);
        if !is_whitespace(c) {
            proof {
                assert(s@.subrange(a as int, n as int)[0] == c);
            }
            break;
        }
        proof {
            assert(s@.subrange(a as int, n as int).subrange(1, (n - a) as int) =~= s@.subrange(a + 1, n as int));
        }
        a = a + 1;
    }
    s.substring_char(a, n)
}

/// Split off the next whitespace-separated token.
pub fn next_token(s: &str) -> (r: Option<(&str, &str)>)
    ensures
        match next_token_spec(s@) {
            None => r is None,
            Some((tok, rest)) => r matches Some((a, b)) && a@ == tok && b@ == rest,
        },
{
    let t = skip_ws(s);
    let n = t.unicode_len();
    if n == 0 {
        return None;
    }
    let mut k: usize = 0;
    while k < n
        invariant
            k <= n,
            n == t@.len(),
            tok_end(t@, 0) == tok_end(t@, k as int),
        ensures
            k <= n,
            tok_end(t@, 0) == k,
        decreases n - k,
    {
        if is_whitespace(t.get_char(k)) {
            break;
        }
        k = k + 1;
    }
    Some((t.substring_char(0, k), t.substring_char(k, n)))
}

/// Index of the first `c` in `s`, if any.
pub open spec fn first_index(s: Seq<char>, c: char, i: int) -> int
    decreases s.len() - i,
{
    if i >= s.len() {
        -1
    } else if s[i] == c {
        i
    } else {
        first_index(s, c, i + 1)
    }
}

fn find_first(s: &str, c: char) -> (r: Option<usize>)
    ensures
        match r {
            Some(k) => k == first_index(s@, c, 0) && k < s@.len(),
            None => first_index(s@, c, 0) == -1,
        },
{
    let n = s.unicode_len();
    let mut i: usize = 0;
    while i < n
        invariant
            i <= n,
            n == s@.len(),
            first_index(s@, c, 0) == first_index(s@, c, i as int),
        decreases n - i,
    {
        if s.get_char(i) == c {
            return Some(i);
        }
        i = i + 1;
    }
    None
}

/// An ASCII digit.
pub open spec fn is_digit(c: char) -> bool {
    '0' <= c <= '9'
}

/// `s` is non-empty and all digits.
pub open spec fn all_digits(s: Seq<char>) -> bool {
    s.len() > 0 && forall|i: int| 0 <= i < s.len() ==> is_digit(#[trigger] s[i])
}

/// Digits with at most one `.`, at least one digit.
pub open spec fn is_mantissa(s: Seq<char>) -> bool {
    let d = first_index(s, '.', 0);
    if d < 0 {
        all_digits(s)
    } else {
        let a = s.subrange(0, d);
        let b = s.subrange(d + 1, s.len() as int);
        (a.len() == 0 || all_digits(a)) && (b.len() == 0 || all_digits(b)) && a.len() + b.len() > 0
    }
}

/// A sign, then digits.
pub open spec fn is_exponent(s: Seq<char>) -> bool {
    if s.len() > 0 && (s[0] == '+' || s[0] == '-') {
        all_digits(s.subrange(1, s.len() as int))
    } else {
        all_digits(s)
    }
}

/// Index of the first `e` or `E`, or -1.
pub open spec fn first_e(s: Seq<char>, i: int) -> int
    decreases s.len() - i,
{
    if i >= s.len() {
        -1
    } else if s[i] == 'e' || s[i] == 'E' {
        i
    } else {
        first_e(s, i + 1)
    }
}

/// The text `f64::from_str` accepts: an optional sign, then `inf`,
/// `infinity` or `nan` in any case, or a decimal number with an optional
/// exponent.
pub open spec fn is_float_text(s: Seq<char>) -> bool {
    let body = if s.len() > 0 && (s[0] == '+' || s[0] == '-') { s.subrange(1, s.len() as int) } else { s };
    let k = first_e(body, 0);
    ||| lower_eq(body, "inf"@)
    ||| lower_eq(body, "infinity"@)
    ||| lower_eq(body, "nan"@)
    ||| (k < 0 && is_mantissa(body))
    ||| (k >= 0 && is_mantissa(body.subrange(0, k)) && is_exponent(body.subrange(k + 1, body.len() as int)))
}

fn digits_only(s: &str) -> (r: bool)
    ensures
        r == all_digits(s@),
{
    let n = s.unicode_len();
    if n == 0 {
        return false;
    }
    let mut i: usize = 0;
    while i < n
        invariant
            i <= n,
            n == s@.len(),
            forall|j: int| 0 <= j < i ==> is_digit(#[trigger] s@[j]),
        decreases n - i,
    {
        let c = s.get_char(i);
        if !('0' <= c && c <= '9') {
            return false;
        }
        i = i + 1;
    }
    true
}

fn mantissa_ok(s: &str) -> (r: bool)
    ensures
        r == is_mantissa(s@),
{
    let n = s.unicode_len();
    match find_first(s, '.') {
        None => digits_only(s),
        Some(d) => {
            let a = s.substring_char(0, d);
            let b = s.substring_char(d + 1, n);
            let an = a.unicode_len();
            let bn = b.unicode_len();
            (an == 0 || digits_only(a)) && (bn == 0 || digits_only(b)) && an + bn > 0
        },
    }
}

fn exponent_ok(s: &str) -> (r: bool)
    ensures
        r == is_exponent(s@),
{
    let n = s.unicode_len();
    if n > 0 {
        let c = s.get_char(0);
        if c == '+' || c == '-' {
            return digits_only(s.substring_char(1, n));
        }
    }
    digits_only(s)
}

fn find_e(s: &str) -> (r: Option<usize>)
    ensures
        match r {
            Some(k) => k == first_e(s@, 0) && k < s@.len(),
            None => first_e(s@, 0) == -1,
        },
{
    let n = s.unicode_len();
    let mut i: usize = 0;
    while i < n
        invariant
            i <= n,
            n == s@.len(),
            first_e(s@, 0) == first_e(s@, i as int),
        decreases n - i,
    {
        let c = s.get_char(i);
        if c == 'e' || c == 'E' {
            return Some(i);
        }
        i = i + 1;
    }
    None
}

/// Whether `s` is a number `f64::from_str` accepts.
pub fn float_text_ok(s: &str) -> (r: bool)
    ensures
        r == is_float_text(s@),
{
    let n = s.unicode_len();
    let mut body = s;
    if n > 0 {
        let c = s.get_char(0);
        if c == '+' || c == '-' {
            body = s.substring_char(1, n);
        }
    }
    if crate::firmware::loader::lower_eq_str(body, "inf") || crate::firmware::loader::lower_eq_str(body, "infinity")
        || crate::firmware::loader::lower_eq_str(body, "nan") {
        return true;
    }
    let bn = body.unicode_len();
    match find_e(body) {
        None => mantissa_ok(body),
        Some(k) => mantissa_ok(body.substring_char(0, k)) && exponent_ok(body.substring_char(k + 1, bn)),
    }
}

/// One parsed candump record: the timestamp's text (a number of seconds
/// that `f64::from_str` accepts), interface, id and payload.
#[derive(Clone, Debug)]
pub struct ParsedFrame {
    pub timestamp: String,
    pub interface: String,
    pub id: u16,
    pub len: u8,
    pub data: [u8; 8],
}

/// Byte length of a text (`str::len`).
pub open spec fn byte_len(s: Seq<char>) -> nat {
    (vstd::utf8::encode_utf8(s).len() as usize) as nat
}

/// The outcome of decoding a line's data pairs.
pub open spec fn pairs_result(
    pr: Result<Seq<u8>, (bool, Seq<char>, int)>,
    ts: Seq<char>,
    iface: Seq<char>,
    id: u16,
) -> Result<(Seq<char>, Seq<char>, u16, Seq<u8>), Seq<char>> {
    match pr {
        Ok(v) => Ok((ts, iface, id, v)),
        Err((false, _, off)) => Err("non-ASCII in data pair at offset "@ + dec(off as nat)),
        Err((true, p, off)) => Err("parsing hex data pair '"@ + p + "' at offset "@ + dec(off as nat)),
    }
}

/// What a candump line holds: `(timestamp text, interface, id, payload)`,
/// or the error message.
pub open spec fn candump_spec(line: Seq<char>) -> Result<(Seq<char>, Seq<char>, u16, Seq<u8>), Seq<char>> {
    match next_token_spec(line) {
        None => Err("line is empty"@),
        Some((tok, rest1)) => if !(tok.len() >= 2 && tok[0] == '(' && tok.last() == ')') {
            Err("timestamp '"@ + tok + "' is not wrapped in parentheses"@)
        } else if !is_float_text(tok.subrange(1, tok.len() - 1)) {
            Err("parsing timestamp '"@ + tok + "'"@)
        } else {
            match next_token_spec(rest1) {
                None => Err("missing interface after timestamp"@),
                Some((iface, rest2)) => match next_token_spec(rest2) {
                    None => Err("missing `id#data` after interface"@),
                    Some((iddata, _)) => {
                        let h = first_index(iddata, '#', 0);
                        if h < 0 {
                            Err("`id#data` separator missing"@)
                        } else {
                            let idp = iddata.subrange(0, h);
                            let dp = iddata.subrange(h + 1, iddata.len() as int);
                            let db = vstd::utf8::encode_utf8(dp);
                            if byte_len(idp) > 3 {
                                Err("ID '"@ + idp
                                    + "' has more than 3 hex chars (11-bit only); extended CAN frames not supported"@)
                            } else {
                                match uint_parse(idp, 16, 0xFFFF) {
                                    Err(_) => Err("parsing hex ID '"@ + idp + "'"@),
                                    Ok(id) => if id > 0x7FF {
                                        Err("ID 0x"@ + hex_upper(id, 0) + " does not fit in 11 bits"@)
                                    } else if db.len() % 2 != 0 {
                                        Err("data has odd number of hex digits: '"@ + dp + "'"@)
                                    } else if db.len() / 2 > 8 {
                                        Err("data length "@ + dec(db.len() / 2) + " exceeds classic CAN max of 8 bytes: '"@
                                            + dp + "'"@)
                                    } else {
                                        pairs_result(hex_pairs(db, 0, Seq::empty()), tok.subrange(1, tok.len() - 1), iface, id as u16)
                                    },
                                }
                            }
                        }
                    },
                },
            }
        },
    }
}

/// A parsed frame carries what the specification describes.
pub open spec fn parsed_ok(r: Result<ParsedFrame, String>, s: Result<(Seq<char>, Seq<char>, u16, Seq<u8>), Seq<char>>) -> bool {
    match s {
        Ok((ts, iface, id, data)) => r matches Ok(p) && p.timestamp@ == ts && p.interface@ == iface && p.id == id
            && p.len == data.len() && p.data@.subrange(0, data.len() as int) == data && forall|i: int|
            data.len() <= i < 8 ==> p.data@[i] == 0,
        Err(m) => r matches Err(e) && e@ == m,
    }
}

/// Parse one candump line: `(seconds.micros) iface ID#DATA`.
pub fn parse_candump_line(line: &str) -> (r: Result<ParsedFrame, String>)
    ensures
        parsed_ok(r, candump_spec(line@)),
{
    let (tok, rest1) = match next_token(line) {
        None => {
            return Err(String::from_str("line is empty"));
        },
        Some(p) => p,
    };
    let tn = tok.unicode_len();
    if !(tn >= 2 && tok.get_char(0) == '(' && tok.get_char(tn - 1) == ')') {
        let mut m = String::from_str("timestamp '");
        m.append(tok);
        m.append("' is not wrapped in parentheses");
        return Err(m);
    }
    let inner = tok.substring_char(1, tn - 1);
    if !float_text_ok(inner) {
        let mut m = String::from_str("parsing timestamp '");
        m.append(tok);
        m.append("'");
        return Err(m);
    }
    let (iface, rest2) = match next_token(rest1) {
        None => {
            return Err(String::from_str("missing interface after timestamp"));
        },
        Some(p) => p,
    };
    let (iddata, _) = match next_token(rest2) {
        None => {
            return Err(String::from_str("missing `id#data` after interface"));
        },
        Some(p) => p,
    };
    let n = iddata.unicode_len();
    let h = match find_first(iddata, '#') {
        None => {
            return Err(String::from_str("`id#data` separator missing"));
        },
        Some(h) => h,
    };
    let idp = iddata.substring_char(0, h);
    let dp = iddata.substring_char(h + 1, n);
    if idp.len() > 3 {
        let mut m = String::from_str("ID '");
        m.append(idp);
        m.append("' has more than 3 hex chars (11-bit only); extended CAN frames not supported");
        return Err(m);
    }
    let id = match parse_uint(idp, 16, 0xFFFF) {
        Err(_) => {
            let mut m = String::from_str("parsing hex ID '");
            m.append(idp);
            m.append("'");
            return Err(m);
        },
        Ok(v) => v,
    };
    if id > 0x7FF {
        let mut m = String::from_str("ID 0x");
        push_hex_upper(&mut m, id, 0);
        m.append(" does not fit in 11 bits");
        return Err(m);
    }
    let db = dp.as_bytes();
    let nb = db.len();
    if nb % 2 != 0 {
        let mut m = String::from_str("data has odd number of hex digits: '");
        m.append(dp);
        m.append("'");
        return Err(m);
    }
    if nb / 2 > 8 {
        let mut m = String::from_str("data length ");
        push_dec(&mut m, (nb / 2) as u64);
        m.append(" exceeds classic CAN max of 8 bytes: '");
        m.append(dp);
        m.append("'");
        return Err(m);
    }
    let mut data: [u8; 8] = [0u8; 8];
    let mut k: usize = 0;
    proof {
        assert(data@.subrange(0, 0) =~= Seq::<u8>::empty());
        assert(candump_spec(line@) == pairs_result(hex_pairs(db@, 0, Seq::empty()), inner@, iface@, id as u16));
    }
    while 2 * k < nb
        invariant
            candump_spec(line@) == pairs_result(hex_pairs(db@, 0, Seq::empty()), inner@, iface@, id as u16),
            nb == db@.len(),
            nb % 2 == 0,
            nb / 2 <= 8,
            2 * k <= nb,
            hex_pairs(db@, 0, Seq::empty()) == hex_pairs(db@, k as int, data@.subrange(0, k as int)),
            forall|i: int| k <= i < 8 ==> data@[i] == 0,
        decreases nb - 2 * k,
    {
        let pair = vstd::slice::slice_subrange(db, 2 * k, 2 * k + 2);
        match utf8_text(pair) {
            Err(_) => {
                let mut m = String::from_str("non-ASCII in data pair at offset ");
                push_dec(&mut m, (2 * k) as u64);
                return Err(m);
            },
            Ok(s) => match parse_uint(s, 16, 255) {
                Err(_) => {
                    let mut m = String::from_str("parsing hex data pair '");
                    m.append(s);
                    m.append("' at offset ");
                    push_dec(&mut m, (2 * k) as u64);
                    return Err(m);
                },
                Ok(v) => {
                    let ghost before = data@;
                    data.set(k, v as u8);
                    proof {
                        assert(data@.subrange(0, k + 1) =~= before.subrange(0, k as int).push(v as u8));
                    }
                },
            },
        }
        k = k + 1;
    }
    Ok(ParsedFrame {
        timestamp: String::from_str(inner),
        interface: String::from_str(iface),
        id: id as u16,
        len: (nb / 2) as u8,
        data,
    })
}

/// A line of a recording that holds no frame: blank once trailing
/// whitespace is gone, or a `#` comment.
pub open spec fn skip_line_spec(line: Seq<char>) -> bool {
    let t = crate::parse::trim_end(line);
    t.len() == 0 || t[0] == '#'
}

/// Whether a recorded line holds no frame (blank or a `#` comment).
pub fn is_skipped_line(line: &str) -> (b: bool)
    ensures
        b == skip_line_spec(line@),
{
    let t = crate::parse::trim_end_str(line);
    let n = t.unicode_len();
    if n == 0 {
        return true;
    }
    t.get_char(0) == '#'
}

} // verus!
