//! Text building and parsing helpers with specifications over `Seq<char>`:
//! decimal / hexadecimal rendering, column padding, Unicode whitespace,
//! ASCII case folding and the integer syntax that `from_str_radix` accepts.
use vstd::prelude::*;

verus! {

/// `String::push` appends one character to the string.
pub assume_specification[ std::string::String::push ](s: &mut String, ch: char)
    ensures
        final(s)@ == old(s)@.push(ch),
;

// ---- Digits --------------------------------------------------------

/// The character for digit `d` (`0..=15`) in upper- or lower-case hex.
pub open spec fn hex_char(d: nat, upper: bool) -> char {
    if d < 10 {
        (48 + d) as char
    } else if upper {
        (55 + d) as char
    } else {
        (87 + d) as char
    }
}

/// Digits of `n` in base `radix` (2..=16), most significant first, no padding.
pub open spec fn digits(n: nat, radix: nat, upper: bool) -> Seq<char>
    decreases n,
{
    if radix < 2 || n < radix {
        seq![hex_char(n, upper)]
    } else {
        proof {
            lemma_div_lt(n, radix);
        }
        digits(n / radix, radix, upper).push(hex_char(n % radix, upper))
    }
}

/// Decimal rendering of `n` (`{}`).
pub open spec fn dec(n: nat) -> Seq<char> {
    digits(n, 10, true)
}

/// Decimal rendering of a signed value (`{}` on an `iN`).
pub open spec fn dec_int(v: int) -> Seq<char> {
    if v < 0 {
        seq!['-'] + dec((-v) as nat)
    } else {
        dec(v as nat)
    }
}

/// `s` left-padded with `c` up to `width` characters.
pub open spec fn pad_left(s: Seq<char>, width: nat, c: char) -> Seq<char> {
    if s.len() >= width {
        s
    } else {
        Seq::new((width - s.len()) as nat, |i: int| c) + s
    }
}

/// `s` right-padded with spaces up to `width` characters (`{:<w}`).
pub open spec fn pad_right(s: Seq<char>, width: nat) -> Seq<char> {
    if s.len() >= width {
        s
    } else {
        s + Seq::new((width - s.len()) as nat, |i: int| ' ')
    }
}

/// Upper-case hexadecimal, zero-padded to `width` (`{:0wX}`).
pub open spec fn hex_upper(n: nat, width: nat) -> Seq<char> {
    pad_left(digits(n, 16, true), width, '0')
}

/// Lower-case hexadecimal, zero-padded to `width` (`{:0wx}`).
pub open spec fn hex_lower(n: nat, width: nat) -> Seq<char> {
    pad_left(digits(n, 16, false), width, '0')
}

/// `"true"` / `"false"`.
pub open spec fn bool_text(b: bool) -> Seq<char> {
    if b {
        seq!['t', 'r', 'u', 'e']
    } else {
        seq!['f', 'a', 'l', 's', 'e']
    }
}

/// The one-character string for hex digit `d`.
fn digit_str(d: u64, upper: bool) -> (s: &'static str)
    requires
        d < 16,
    ensures
        s@ == seq![hex_char(d as nat, upper)],
{
    proof {
        reveal_strlit("0");
        reveal_strlit("1");
        reveal_strlit("2");
        reveal_strlit("3");
        reveal_strlit("4");
        reveal_strlit("5");
        reveal_strlit("6");
        reveal_strlit("7");
        reveal_strlit("8");
        reveal_strlit("9");
        reveal_strlit("A");
        reveal_strlit("B");
        reveal_strlit("C");
        reveal_strlit("D");
        reveal_strlit("E");
        reveal_strlit("F");
        reveal_strlit("a");
        reveal_strlit("b");
        reveal_strlit("c");
        reveal_strlit("d");
        reveal_strlit("e");
        reveal_strlit("f");
    }
    if d == 0 { "0" } else if d == 1 { "1" } else if d == 2 { "2" } else if d == 3 { "3" }
    else if d == 4 { "4" } else if d == 5 { "5" } else if d == 6 { "6" } else if d == 7 { "7" }
    else if d == 8 { "8" } else if d == 9 { "9" }
    else if upper {
        if d == 10 { "A" } else if d == 11 { "B" } else if d == 12 { "C" } else if d == 13 { "D" }
        else if d == 14 { "E" } else { "F" }
    } else {
        if d == 10 { "a" } else if d == 11 { "b" } else if d == 12 { "c" } else if d == 13 { "d" }
        else if d == 14 { "e" } else { "f" }
    }
}

/// Number of digits of `n` in base `radix`.
pub open spec fn digit_len(n: nat, radix: nat) -> nat
    decreases n,
{
    if radix < 2 || n < radix {
        1
    } else {
        proof {
            lemma_div_lt(n, radix);
        }
        digit_len(n / radix, radix) + 1
    }
}

/// Dividing by a radix of at least two strictly shrinks a value that is at
/// least the radix.
pub proof fn lemma_div_lt(n: nat, radix: nat)
    requires
        radix >= 2,
        n >= radix,
    ensures
        n / radix < n,
        n / radix <= n / 2,
{
    assert(n / radix < n && n / radix <= n / 2) by (nonlinear_arith)
        requires
            n >= radix,
            radix >= 2,
    ;
}

/// The rendering has `digit_len` characters whatever the letter case.
pub proof fn lemma_digits_len(n: nat, radix: nat, upper: bool)
    ensures
        digits(n, radix, upper).len() == digit_len(n, radix),
        digit_len(n, radix) >= 1,
        2 <= radix ==> digit_len(n, radix) <= n + 1,
    decreases n,
{
    if radix >= 2 && n >= radix {
        assert(n / radix < n && n / radix <= n / 2) by (nonlinear_arith)
            requires
                n >= radix,
                radix >= 2,
        ;
        lemma_digits_len(n / radix, radix, upper);
    }
}

/// Append the digits of `n` in base `radix`.
pub fn push_digits(out: &mut String, n: u64, radix: u64, upper: bool)
    requires
        2 <= radix <= 16,
    ensures
        final(out)@ == old(out)@ + digits(n as nat, radix as nat, upper),
    decreases n,
{
    if n >= radix {
        assert(n / radix < n) by (nonlinear_arith)
            requires
                n >= radix,
                radix >= 2,
        ;
        push_digits(out, n / radix, radix, upper);
    } else {
        assert(n % radix == n) by (nonlinear_arith)
            requires
                n < radix,
                radix >= 2,
        ;
    }
    assert(n % radix < 16) by (nonlinear_arith)
        requires
            radix <= 16,
            radix >= 2,
    ;
    out.append(digit_str(n % radix, upper));
    proof {
        assert(out@ =~= old(out)@ + digits(n as nat, radix as nat, upper));
    }
}

/// Number of digits of `n` in base `radix`.
pub fn digit_count(n: u64, radix: u64) -> (c: u64)
    requires
        2 <= radix <= 16,
    ensures
        c as nat == digit_len(n as nat, radix as nat),
    decreases n,
{
    proof {
        lemma_digits_len(n as nat, radix as nat, true);
    }
    if n >= radix {
        assert(n / radix < n && n / radix <= n / 2) by (nonlinear_arith)
            requires
                n >= radix,
                radix >= 2,
        ;
        let c = digit_count(n / radix, radix);
        proof {
            lemma_digits_len((n / radix) as nat, radix as nat, true);
        }
        c + 1
    } else {
        1
    }
}

/// Append `count` copies of `c` (a space or a zero).
pub fn push_fill(out: &mut String, count: u64, c: char)
    requires
        c == ' ' || c == '0',
    ensures
        final(out)@ == old(out)@ + Seq::new(count as nat, |i: int| c),
{
    proof {
        reveal_strlit(" ");
        reveal_strlit("0");
    }
    let s: &str = if c == ' ' { " " } else { "0" };
    let mut i: u64 = 0;
    while i < count
        invariant
            i <= count,
            s@ == seq![c],
            out@ == old(out)@ + Seq::new(i as nat, |j: int| c),
        decreases count - i,
    {
        out.append(s);
        i = i + 1;
        assert(out@ =~= old(out)@ + Seq::new(i as nat, |j: int| c));
    }
}

/// Append `n` in base `radix`, left-padded with `c` to `width` characters.
pub fn push_padded(out: &mut String, n: u64, radix: u64, upper: bool, width: u64, c: char)
    requires
        2 <= radix <= 16,
        c == ' ' || c == '0',
    ensures
        final(out)@ == old(out)@ + pad_left(digits(n as nat, radix as nat, upper), width as nat, c),
{
    let len = digit_count(n, radix);
    proof {
        lemma_digits_len(n as nat, radix as nat, upper);
    }
    if len < width {
        push_fill(out, width - len, c);
    }
    let ghost mid = out@;
    push_digits(out, n, radix, upper);
    assert(out@ =~= old(out)@ + pad_left(digits(n as nat, radix as nat, upper), width as nat, c));
}

/// Append `n` in decimal (`{}`).
pub fn push_dec(out: &mut String, n: u64)
    ensures
        final(out)@ == old(out)@ + dec(n as nat),
{
    push_digits(out, n, 10, true);
}

/// Append `n` in decimal, right-aligned in `width` columns (`{:>w}`).
pub fn push_dec_right(out: &mut String, n: u64, width: u64)
    ensures
        final(out)@ == old(out)@ + pad_left(dec(n as nat), width as nat, ' '),
{
    push_padded(out, n, 10, true, width, ' ');
}

/// Append `n` as upper-case hex zero-padded to `width` (`{:0wX}`).
pub fn push_hex_upper(out: &mut String, n: u64, width: u64)
    ensures
        final(out)@ == old(out)@ + hex_upper(n as nat, width as nat),
{
    push_padded(out, n, 16, true, width, '0');
}

/// Append `n` as lower-case hex zero-padded to `width` (`{:0wx}`).
pub fn push_hex_lower(out: &mut String, n: u64, width: u64)
    ensures
        final(out)@ == old(out)@ + hex_lower(n as nat, width as nat),
{
    push_padded(out, n, 16, false, width, '0');
}

/// Append a signed value in decimal, right-aligned in `width` columns
/// (`{:>w}` on an `iN`; `width` 0 gives plain `{}`).
pub fn push_int_right(out: &mut String, v: i64, width: u64)
    ensures
        final(out)@ == old(out)@ + pad_left(dec_int(v as int), width as nat, ' '),
{
    let mag: u64 = if v < 0 { (-(v as i128)) as u64 } else { v as u64 };
    let len = digit_count(mag, 10);
    proof {
        lemma_digits_len(mag as nat, 10, true);
    }
    let total: u64 = if v < 0 { len + 1 } else { len };
    if total < width {
        push_fill(out, width - total, ' ');
    }
    proof {
        reveal_strlit("-");
    }
    if v < 0 {
        out.append("-");
    }
    push_digits(out, mag, 10, true);
    assert(out@ =~= old(out)@ + pad_left(dec_int(v as int), width as nat, ' '));
}

/// Append `true` / `false`.
pub fn push_bool(out: &mut String, b: bool)
    ensures
        final(out)@ == old(out)@ + bool_text(b),
{
    proof {
        reveal_strlit("true");
        reveal_strlit("false");
    }
    if b {
        out.append("true");
    } else {
        out.append("false");
    }
}

/// Append `s` left-aligned in `width` columns (`{:<w}`), counting one
/// column per character.
pub fn push_left_aligned(out: &mut String, s: &str, width: u64)
    ensures
        final(out)@ == old(out)@ + pad_right(s@, width as nat),
{
    let n = s.unicode_len();
    out.append(s);
    if (n as u64) < width {
        push_fill(out, width - n as u64, ' ');
    }
    assert(out@ =~= old(out)@ + pad_right(s@, width as nat));
}


/// Append `s` right-aligned in `width` columns (`{:>w}` on a string),
/// counting one column per character.
pub fn push_right_aligned(out: &mut String, s: &str, width: u64)
    ensures
        final(out)@ == old(out)@ + pad_left(s@, width as nat, ' '),
{
    let n = s.unicode_len();
    if (n as u64) < width {
        push_fill(out, width - n as u64, ' ');
    }
    out.append(s);
    assert(out@ =~= old(out)@ + pad_left(s@, width as nat, ' '));
}

/// Bytes as two-digit hex, in order, optionally separated by single spaces.
pub open spec fn hex_bytes_text(bytes: Seq<u8>, upper: bool, spaced: bool) -> Seq<char>
    decreases bytes.len(),
{
    if bytes.len() == 0 {
        Seq::empty()
    } else {
        let prev = hex_bytes_text(bytes.drop_last(), upper, spaced);
        let sep = if spaced && bytes.len() > 1 { seq![' '] } else { Seq::empty() };
        prev + sep + pad_left(digits(bytes.last() as nat, 16, upper), 2, '0')
    }
}

/// Append `bytes` as two-digit hex, optionally space-separated.
pub fn push_hex_bytes(out: &mut String, bytes: &[u8], upper: bool, spaced: bool)
    ensures
        final(out)@ == old(out)@ + hex_bytes_text(bytes@, upper, spaced),
{
    proof {
        reveal_strlit(" ");
    }
    let mut i: usize = 0;
    while i < bytes.len()
        invariant
            i <= bytes@.len(),
            out@ == old(out)@ + hex_bytes_text(bytes@.take(i as int), upper, spaced),
        decreases bytes@.len() - i,
    {
        let ghost before = out@;
        if spaced && i > 0 {
            out.append(" ");
        }
        let ghost mid = out@;
        push_padded(out, bytes[i] as u64, 16, upper, 2, '0');
        proof {
            reveal_strlit(" ");
            let t = bytes@.take(i + 1);
            assert(t.drop_last() =~= bytes@.take(i as int));
            assert(t.last() == bytes@[i as int]);
            let sep: Seq<char> = if spaced && t.len() > 1 { seq![' '] } else { Seq::empty() };
            assert(mid =~= before + sep);
            let pad = pad_left(digits(t.last() as nat, 16, upper), 2, '0');
            assert(out@ == mid + pad);
            assert(hex_bytes_text(t, upper, spaced) == hex_bytes_text(bytes@.take(i as int), upper, spaced) + sep + pad);
            assert(out@ =~= old(out)@ + hex_bytes_text(t, upper, spaced));
        }
        i = i + 1;
    }
    proof {
        assert(bytes@.take(bytes@.len() as int) =~= bytes@);
    }
}


/// Decimal values joined by `", "`.
pub open spec fn dec_join(v: Seq<u8>) -> Seq<char>
    decreases v.len(),
{
    if v.len() == 0 {
        Seq::empty()
    } else if v.len() == 1 {
        dec(v[0] as nat)
    } else {
        dec_join(v.drop_last()) + seq![',', ' '] + dec(v.last() as nat)
    }
}

/// `{:?}` of a byte list: `[1, 2, 3]`.
pub open spec fn dec_list(v: Seq<u8>) -> Seq<char> {
    seq!['['] + dec_join(v) + seq![']']
}

/// Append a byte list as `{:?}` renders it: `[1, 2, 3]`.
pub fn push_dec_list(out: &mut String, v: &[u8])
    ensures
        final(out)@ == old(out)@ + dec_list(v@),
{
    proof {
        reveal_strlit("[");
        reveal_strlit("]");
        reveal_strlit(", ");
    }
    out.append("[");
    let ghost start = out@;
    let mut i: usize = 0;
    while i < v.len()
        invariant
            i <= v@.len(),
            out@ == start + dec_join(v@.take(i as int)),
        decreases v@.len() - i,
    {
        proof {
            reveal_strlit(", ");
        }
        let ghost before = out@;
        if i > 0 {
            out.append(", ");
        }
        push_dec(out, v[i] as u64);
        proof {
            let t = v@.take(i + 1);
            assert(t.drop_last() =~= v@.take(i as int));
            assert(t.last() == v@[i as int]);
            if i == 0 {
                assert(v@.take(0) =~= Seq::<u8>::empty());
                assert(out@ =~= start + dec_join(t));
            } else {
                assert(out@ =~= start + dec_join(t));
            }
        }
        i = i + 1;
    }
    proof {
        assert(v@.take(v@.len() as int) =~= v@);
    }
    out.append("]");
    assert(out@ =~= old(out)@ + dec_list(v@));
}

/// Append a signed value in decimal (`{}` on an `iN`).
pub fn push_int(out: &mut String, v: i64)
    ensures
        final(out)@ == old(out)@ + dec_int(v as int),
{
    push_int_right(out, v, 0);
}

/// `"1"` / `"0"`: a flag printed through `as u8`.
pub open spec fn bit_text(b: bool) -> Seq<char> {
    if b {
        seq!['1']
    } else {
        seq!['0']
    }
}

/// Append [`bit_text`] of `b`.
pub fn push_bit(out: &mut String, b: bool)
    ensures
        final(out)@ == old(out)@ + bit_text(b),
{
    proof {
        reveal_strlit("1");
        reveal_strlit("0");
    }
    if b {
        out.append("1");
    } else {
        out.append("0");
    }
}

/// A count of tenths rendered with one decimal place, as `{:.1}` prints
/// `v × 0.1`: an optional minus sign, the whole part, a point, one digit.
pub open spec fn tenths_text(v: int) -> Seq<char> {
    let m: nat = if v < 0 { (-v) as nat } else { v as nat };
    (if v < 0 { seq!['-'] } else { Seq::empty() }) + dec(m / 10) + seq!['.'] + dec(m % 10)
}

/// Append [`tenths_text`] of `v`.
pub fn push_tenths(out: &mut String, v: i64)
    ensures
        final(out)@ == old(out)@ + tenths_text(v as int),
{
    proof {
        reveal_strlit("-");
        reveal_strlit(".");
    }
    let m: u64 = if v < 0 { (-(v as i128)) as u64 } else { v as u64 };
    let ghost start = out@;
    if v < 0 {
        out.append("-");
    }
    let ghost signed = out@;
    push_dec(out, m / 10);
    out.append(".");
    push_dec(out, m % 10);
    assert(out@ =~= old(out)@ + tenths_text(v as int));
}

/// The first `n` values, each right-aligned in `width` columns, joined by `sep`.
pub open spec fn join_dec(v: Seq<u8>, width: nat, sep: Seq<char>) -> Seq<char>
    decreases v.len(),
{
    if v.len() == 0 {
        Seq::empty()
    } else if v.len() == 1 {
        pad_left(dec(v[0] as nat), width, ' ')
    } else {
        join_dec(v.drop_last(), width, sep) + sep + pad_left(dec(v.last() as nat), width, ' ')
    }
}

/// Append [`join_dec`] of the first `n` values of `v`.
pub fn push_join_dec(out: &mut String, v: &[u8], n: usize, width: u64, sep: &str)
    requires
        n <= v@.len(),
    ensures
        final(out)@ == old(out)@ + join_dec(v@.take(n as int), width as nat, sep@),
{
    let mut i: usize = 0;
    while i < n
        invariant
            i <= n <= v@.len(),
            out@ == old(out)@ + join_dec(v@.take(i as int), width as nat, sep@),
        decreases n - i,
    {
        let ghost before = out@;
        if i > 0 {
            out.append(sep);
        }
        push_dec_right(out, v[i] as u64, width);
        proof {
            let t = v@.take(i + 1);
            assert(t.drop_last() =~= v@.take(i as int));
            assert(t.last() == v@[i as int]);
            if i == 0 {
                assert(v@.take(0) =~= Seq::<u8>::empty());
            }
            assert(out@ =~= old(out)@ + join_dec(t, width as nat, sep@));
        }
        i = i + 1;
    }
}

/// Column padding keeps the text and only adds fill: the result is
/// `max(|s|, width)` long, `pad_left` ends with `s` after fill characters
/// and `pad_right` starts with `s` followed by spaces.
pub proof fn lemma_padding_shape(s: Seq<char>, width: nat, c: char)
    ensures
        pad_left(s, width, c).len() == if s.len() >= width { s.len() } else { width },
        pad_right(s, width).len() == if s.len() >= width { s.len() } else { width },
        pad_left(s, width, c).subrange(pad_left(s, width, c).len() - s.len(), pad_left(s, width, c).len() as int) == s,
        pad_right(s, width).subrange(0, s.len() as int) == s,
        forall|i: int| 0 <= i < pad_left(s, width, c).len() - s.len() ==> #[trigger] pad_left(s, width, c)[i] == c,
        forall|i: int| s.len() <= i < pad_right(s, width).len() ==> #[trigger] pad_right(s, width)[i] == ' ',
{
    let l = pad_left(s, width, c);
    let r = pad_right(s, width);
    assert(l.subrange(l.len() - s.len(), l.len() as int) =~= s);
    assert(r.subrange(0, s.len() as int) =~= s);
}

} // verus!
