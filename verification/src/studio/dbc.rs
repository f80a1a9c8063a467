//! DBC support for the desktop front-end: the load request, the summary and
//! status events, and the raw extraction of a signal's bits from a frame
//! (Intel and Motorola bit order, unsigned or two's-complement signed).
use vstd::prelude::*;
use crate::text::{dec, push_dec};

verus! {

/// A DBC load request: the file to parse.
pub struct DbcLoadRequest {
    pub path: String,
}

/// What a loaded DBC holds.
#[derive(Clone, Debug, PartialEq)]
pub struct DbcSummary {
    pub path: String,
    pub message_count: usize,
    pub signal_count: usize,
}

/// DBC lifecycle events.
#[derive(Clone, Debug, PartialEq)]
pub enum DbcStatusEvent {
    Loaded(DbcSummary),
    Unloaded,
    Error { message: String },
}

/// The text of a DBC file without a leading byte-order mark.
pub fn strip_bom(raw: &str) -> (s: &str)
    ensures
        s@ == if raw@.len() > 0 && raw@[0] == '\u{FEFF}' { raw@.skip(1) } else { raw@ },
{
    let n = raw.unicode_len();
    if n > 0 && raw.get_char(0) == '\u{FEFF}' {
        let t = raw.substring_char(1, n);
        assert(t@ =~= raw@.skip(1));
        t
    } else {
        raw
    }
}

/// The key a decoded signal is reported under: `MESSAGE_ID|SIGNAL_NAME`.
pub fn signal_key(message_id: u32, signal_name: &str) -> (s: String)
    ensures
        s@ == dec(message_id as nat) + "|"@ + signal_name@,
{
    let mut s = String::new();
    push_dec(&mut s, message_id as u64);
    assert(s@ =~= dec(message_id as nat));
    s.append("|");
    s.append(signal_name);
    s
}

/// Bit `pos` (0..64) of the payload: bit `pos % 8` of byte `pos / 8`.
pub open spec fn data_bit(data: Seq<u8>, pos: int) -> u64 {
    ((data[pos / 8] >> ((pos % 8) as u8)) & 1u8) as u64
}

/// The first `n` bits of an Intel (little-endian) signal starting at
/// `start`: signal bit `i` is payload bit `start + i`; bits past the end of
/// the payload are zero.
pub open spec fn le_bits(data: Seq<u8>, start: u32, n: nat) -> u64
    decreases n,
{
    if n == 0 {
        0
    } else {
        let prev = le_bits(data, start, (n - 1) as nat);
        let pos = start + n - 1;
        if pos >= 64 {
            prev
        } else {
            prev | (data_bit(data, pos) << ((n - 1) as u64))
        }
    }
}

/// Payload position of the `i`-th bit of a Motorola (big-endian) signal
/// whose most significant bit sits at `start`: within a byte the walk goes
/// down one bit, from a byte's bit 0 it moves to bit 7 of the next byte.
pub open spec fn be_pos(start: i32, i: nat) -> int
    decreases i,
{
    if i == 0 {
        start as int
    } else {
        let p = be_pos(start, (i - 1) as nat);
        if p % 8 == 0 {
            p + 15
        } else {
            p - 1
        }
    }
}

/// The walk stays inside the payload for its first `i + 1` steps.
pub open spec fn be_in_range(start: i32, i: nat) -> bool
    decreases i,
{
    0 <= be_pos(start, i) < 64 && (i == 0 || be_in_range(start, (i - 1) as nat))
}

/// The first `n` bits of a Motorola signal of `size` bits: signal bit `i`
/// (counted from the most significant) lands at value bit `size - 1 - i`;
/// the walk stops at the end of the payload.
pub open spec fn be_bits(data: Seq<u8>, start: i32, size: nat, n: nat) -> u64
    decreases n,
{
    if n == 0 {
        0
    } else {
        let prev = be_bits(data, start, size, (n - 1) as nat);
        if be_in_range(start, (n - 1) as nat) {
            prev | (data_bit(data, be_pos(start, (n - 1) as nat)) << ((size - n) as u64))
        } else {
            prev
        }
    }
}

/// Width actually read: at most 64 bits.
pub open spec fn clamp_size(size: u32) -> nat {
    if size > 64 {
        64
    } else {
        size as nat
    }
}

/// The raw (unscaled) value of a signal: the assembled bits, read as an
/// unsigned number or, for a signed signal whose top bit is set, as that
/// number minus `2^size`.
pub open spec fn raw_value(data: Seq<u8>, start_bit: u32, size: u32, little_endian: bool, signed: bool) -> int {
    let w = clamp_size(size);
    let raw = if little_endian {
        le_bits(data, start_bit, w)
    } else {
        be_bits(data, start_bit as i32, w, w)
    };
    if w == 0 {
        0
    } else if signed && (raw >> ((w - 1) as u64)) & 1 == 1 {
        raw as int - vstd::arithmetic::power2::pow2(w)
    } else {
        raw as int
    }
}

fn le_collect(data: &[u8; 8], start_bit: u32, size: u32) -> (raw: u64)
    requires
        size <= 64,
    ensures
        raw == le_bits(data@, start_bit, size as nat),
{
    let mut raw: u64 = 0;
    let mut i: u32 = 0;
    while i < size
        invariant
            i <= size <= 64,
            raw == le_bits(data@, start_bit, i as nat),
        decreases size - i,
    {
        if start_bit as u64 + i as u64 >= 64 {
            // Past the payload: this and every later bit reads as zero.
            proof {
                assert forall|k: nat| i < k <= size implies le_bits(data@, start_bit, k) == raw by {
                    lemma_le_bits_past_end(data@, start_bit, i as nat, k);
                }
            }
            return raw;
        }
        let bit = start_bit + i;
        let v: u8 = (data[(bit / 8) as usize] >> ((bit % 8) as u8)) & 1;
        raw = raw | ((v as u64) << (i as u64));
        i = i + 1;
    }
    raw
}

proof fn lemma_le_bits_past_end(data: Seq<u8>, start: u32, i: nat, k: nat)
    requires
        start + i >= 64,
        i <= k,
    ensures
        le_bits(data, start, k) == le_bits(data, start, i),
    decreases k - i,
{
    if k > i {
        lemma_le_bits_past_end(data, start, i, (k - 1) as nat);
    }
}

proof fn lemma_be_stops(start: i32, i: nat, k: nat)
    requires
        !be_in_range(start, i),
        i <= k,
    ensures
        !be_in_range(start, k),
    decreases k - i,
{
    if k > i {
        lemma_be_stops(start, i, (k - 1) as nat);
    }
}

proof fn lemma_be_bits_stopped(data: Seq<u8>, start: i32, size: nat, i: nat, k: nat)
    requires
        !be_in_range(start, i),
        i < k,
    ensures
        be_bits(data, start, size, k) == be_bits(data, start, size, i),
    decreases k - i,
{
    if k > i + 1 {
        lemma_be_bits_stopped(data, start, size, i, (k - 1) as nat);
        lemma_be_stops(start, i, (k - 1) as nat);
    }
}

fn be_collect(data: &[u8; 8], start_bit: u32, size: u32) -> (raw: u64)
    requires
        size <= 64,
    ensures
        raw == be_bits(data@, start_bit as i32, size as nat, size as nat),
{
    #[verifier::truncate]
    let start: i32 = start_bit as i32;
    let mut bit: i32 = start;
    let mut raw: u64 = 0;
    let mut i: u32 = 0;
    while i < size
        invariant
            i <= size <= 64,
            start == start_bit as i32,
            bit == be_pos(start, i as nat),
            i > 0 ==> be_in_range(start, (i - 1) as nat),
            raw == be_bits(data@, start, size as nat, i as nat),
        decreases size - i,
    {
        if bit < 0 || bit >= 64 {
            proof {
                assert(!be_in_range(start, i as nat));
                assert forall|k: nat| i < k <= size implies be_bits(data@, start, size as nat, k) == raw by {
                    lemma_be_bits_stopped(data@, start, size as nat, i as nat, k);
                }
            }
            return raw;
        }
        let v: u8 = (data[(bit / 8) as usize] >> ((bit % 8) as u8)) & 1;
        raw = raw | ((v as u64) << ((size - 1 - i) as u64));
        if bit % 8 == 0 {
            bit = bit + 15;
        } else {
            bit = bit - 1;
        }
        i = i + 1;
    }
    raw
}

/// Raw value of a signal of `size` bits at `start_bit` in `data` (see
/// [`raw_value`]); sizes above 64 read 64 bits. The physical value is
/// `raw × factor + offset`, computed by the caller.
pub fn extract_raw(data: &[u8; 8], start_bit: u32, size: u32, little_endian: bool, signed: bool) -> (r: i128)
    ensures
        r == raw_value(data@, start_bit, size, little_endian, signed),
{
    let w: u32 = if size > 64 {
        64
    } else {
        size
    };
    if w == 0 {
        return 0;
    }
    let raw = if little_endian {
        le_collect(data, start_bit, w)
    } else {
        be_collect(data, start_bit, w)
    };
    let top = (raw >> ((w - 1) as u64)) & 1;
    if signed && top == 1 {
        proof {
            vstd::arithmetic::power2::lemma2_to64();
            vstd::arithmetic::power2::lemma2_to64_rest();
        }
        let p: i128 = pow2_i128(w);
        raw as i128 - p
    } else {
        raw as i128
    }
}

/// `2^w` for `w` in 1..=64.
fn pow2_i128(w: u32) -> (p: i128)
    requires
        1 <= w <= 64,
    ensures
        p == vstd::arithmetic::power2::pow2(w as nat),
{
    let mut p: i128 = 1;
    let mut k: u32 = 0;
    proof {
        vstd::arithmetic::power2::lemma2_to64();
    }
    while k < w
        invariant
            k <= w <= 64,
            p == vstd::arithmetic::power2::pow2(k as nat),
        decreases w - k,
    {
        proof {
            vstd::arithmetic::power2::lemma_pow2_unfold((k + 1) as nat);
            vstd::arithmetic::power2::lemma_pow2_strictly_increases(k as nat, 64);
            vstd::arithmetic::power2::lemma2_to64_rest();
        }
        p = p * 2;
        k = k + 1;
    }
    p
}

// ---- Laws ----

proof fn lemma_or_shifted_bit(prev: u64, b: u64, k: u64, i: u64)
    by (bit_vector)
    requires
        b <= 1,
        k < 64,
        i < 64,
        (prev >> k) & 1 == 0,
    ensures
        ((prev | (b << k)) >> i) & 1 == if i == k {
            b
        } else {
            (prev >> i) & 1
        },
{
}

proof fn lemma_zero_bits(i: u64)
    by (bit_vector)
    requires
        i < 64,
    ensures
        (0u64 >> i) & 1 == 0,
{
}

proof fn lemma_byte_bit(x: u8, k: u8)
    by (bit_vector)
    requires
        k < 8,
    ensures
        (x >> k) & 1u8 <= 1,
{
}

/// Bit `i` of the first `n` Intel bits is payload bit `start + i` while
/// that lies in the payload and `i < n`, and zero otherwise.
proof fn lemma_le_bits_bit(data: Seq<u8>, start: u32, n: nat, i: u64)
    requires
        data.len() == 8,
        n <= 64,
        i < 64,
    ensures
        (le_bits(data, start, n) >> i) & 1 == if (i as int) < n && start + i < 64 {
            ((data[(start + i) / 8] >> (((start + i) % 8) as u8)) & 1u8) as u64
        } else {
            0
        },
    decreases n,
{
    if n == 0 {
        lemma_zero_bits(i);
    } else {
        lemma_le_bits_bit(data, start, (n - 1) as nat, i);
        let prev = le_bits(data, start, (n - 1) as nat);
        let pos = start + n - 1;
        if pos < 64 {
            let k = (n - 1) as u64;
            lemma_le_bits_bit(data, start, (n - 1) as nat, k);
            let b = data_bit(data, pos);
            lemma_byte_bit(data[pos / 8], (pos % 8) as u8);
            lemma_or_shifted_bit(prev, b, k, i);
        }
    }
}

/// An Intel (little-endian) unsigned signal reads its bits straight out
/// of the payload: bit `i` of the raw value is bit `(start_bit + i) % 8`
/// of payload byte `(start_bit + i) / 8` for every `i` below the signal's
/// size whose position lies in the 8-byte payload, and every other bit of
/// the raw value is zero.
pub proof fn lemma_intel_raw_bits(data: Seq<u8>, start_bit: u32, size: u32, i: u64)
    requires
        data.len() == 8,
        i < 64,
    ensures
        ((raw_value(data, start_bit, size, true, false) as u64) >> i) & 1 == if i < size && start_bit + i < 64 {
            ((data[(start_bit + i) / 8] >> (((start_bit + i) % 8) as u8)) & 1u8) as u64
        } else {
            0
        },
{
    let w = clamp_size(size);
    lemma_le_bits_bit(data, start_bit, w, i);
    if w == 0 {
        lemma_zero_bits(i);
    }
}

/// A signed signal is its unsigned reading, less `2^size` when its top
/// bit is set (two's complement), in either bit order.
pub proof fn lemma_signed_raw(data: Seq<u8>, start_bit: u32, size: u32, little_endian: bool)
    requires
        1 <= size <= 64,
    ensures
        raw_value(data, start_bit, size, little_endian, true) == raw_value(data, start_bit, size, little_endian, false)
            - if ((raw_value(data, start_bit, size, little_endian, false) as u64) >> ((size - 1) as u64)) & 1 == 1 {
            vstd::arithmetic::power2::pow2(size as nat)
        } else {
            0
        },
{
}

/// Closed form of the Motorola walk from `start`: counting from bit 7 of
/// the start byte, the `i`-th visited bit is bit `7 - k % 8` of byte
/// `start / 8 + k / 8`, where `k = 7 - start % 8 + i`.
proof fn lemma_be_pos_closed(start: i32, i: nat)
    requires
        0 <= start < 64,
    ensures
        be_pos(start, i) == 8 * (start / 8 + (7 - start % 8 + i) / 8) + 7 - (7 - start % 8 + i) % 8,
    decreases i,
{
    if i > 0 {
        lemma_be_pos_closed(start, (i - 1) as nat);
        let k: int = 7 - start % 8 + i - 1;
        let p = be_pos(start, (i - 1) as nat);
        assert(p == 8 * (start / 8 + k / 8) + 7 - k % 8);
        assert(p % 8 == 7 - k % 8);
        if k % 8 == 7 {
            assert((k + 1) / 8 == k / 8 + 1 && (k + 1) % 8 == 0);
        } else {
            assert((k + 1) / 8 == k / 8 && (k + 1) % 8 == k % 8 + 1);
        }
    }
}

/// The Motorola walk from a start inside the payload stays inside it for
/// its first `i + 1` steps exactly when its `i`-th step is still in the
/// payload's eighth byte or before.
proof fn lemma_be_in_range_closed(start: i32, i: nat)
    requires
        0 <= start < 64,
    ensures
        be_in_range(start, i) <==> start / 8 + (7 - start % 8 + i) / 8 < 8,
    decreases i,
{
    lemma_be_pos_closed(start, i);
    if i > 0 {
        lemma_be_in_range_closed(start, (i - 1) as nat);
        let k: int = 7 - start % 8 + i;
        assert((k - 1) / 8 <= k / 8);
    }
}

/// Bit `j` of the first `n` Motorola bits (of a `size`-bit signal): the
/// signal bit `size - 1 - j` when that one was read inside the payload,
/// and zero otherwise.
proof fn lemma_be_bits_bit(data: Seq<u8>, start: i32, size: nat, n: nat, j: u64)
    requires
        data.len() == 8,
        n <= size <= 64,
        j < 64,
    ensures
        (be_bits(data, start, size, n) >> j) & 1 == if (j as int) < size && size - 1 - j < n
            && be_in_range(start, (size - 1 - j) as nat) {
            data_bit(data, be_pos(start, (size - 1 - j) as nat))
        } else {
            0
        },
    decreases n,
{
    if n == 0 {
        lemma_zero_bits(j);
    } else {
        lemma_be_bits_bit(data, start, size, (n - 1) as nat, j);
        if be_in_range(start, (n - 1) as nat) {
            let prev = be_bits(data, start, size, (n - 1) as nat);
            let k = (size - n) as u64;
            lemma_be_bits_bit(data, start, size, (n - 1) as nat, k);
            let pos = be_pos(start, (n - 1) as nat);
            lemma_byte_bit(data[pos / 8], (pos % 8) as u8);
            lemma_or_shifted_bit(prev, data_bit(data, pos), k, j);
        }
    }
}

/// A Motorola (big-endian) unsigned signal reads its bits in the DBC
/// sawtooth order: counting `k = 7 - start_bit % 8 + i`, the `i`-th bit
/// from the most significant is bit `7 - k % 8` of payload byte
/// `start_bit / 8 + k / 8` (so after a byte's bit 0 comes bit 7 of the next
/// byte), and it reads as zero once that byte lies past the payload.
pub proof fn lemma_motorola_raw_bits(data: Seq<u8>, start_bit: u32, size: u32, i: u32)
    requires
        data.len() == 8,
        start_bit < 64,
        1 <= size <= 64,
        i < size,
    ensures
        ({
            let k: int = 7 - start_bit % 8 + i;
            let byte: int = start_bit / 8 + k / 8;
            ((raw_value(data, start_bit, size, false, false) as u64) >> ((size - 1 - i) as u64)) & 1 == if byte < 8 {
                ((data[byte] >> ((7 - k % 8) as u8)) & 1u8) as u64
            } else {
                0
            }
        }),
{
    let start = start_bit as i32;
    let j = (size - 1 - i) as u64;
    lemma_be_bits_bit(data, start, size as nat, size as nat, j);
    lemma_be_pos_closed(start, i as nat);
    lemma_be_in_range_closed(start, i as nat);
}

} // verus!
