//! Classifying a failed `recv`: an empty poll window is routine on any real
//! bus and must not end a session, while anything else is surfaced.
use vstd::prelude::*;

verus! {

/// `needle` occurs in `hay` as a contiguous run of characters.
pub open spec fn contains_text(hay: Seq<char>, needle: Seq<char>) -> bool {
    exists|i: int|
        0 <= i && i + needle.len() <= hay.len() && #[trigger] hay.subrange(i, i + needle.len()) == needle
}

/// Does `needle` occur at position `i` of `hay`?
fn matches_at(hay: &str, needle: &str, i: usize) -> (r: bool)
    requires
        i + needle@.len() <= hay@.len(),
    ensures
        r == (hay@.subrange(i as int, i + needle@.len()) == needle@),
{
    let n = needle.unicode_len();
    let h = hay.unicode_len();
    let mut k: usize = 0;
    while k < n
        invariant
            i + n <= hay@.len(),
            h == hay@.len(),
            n == needle@.len(),
            k <= n,
            forall|j: int| 0 <= j < k ==> hay@[i + j] == needle@[j],
        decreases n - k,
    {
        if hay.get_char(i + k) != needle.get_char(k) {
            assert(hay@.subrange(i as int, i + n)[k as int] != needle@[k as int]);
            return false;
        }
        k = k + 1;
    }
    assert(hay@.subrange(i as int, i + n) =~= needle@);
    true
}

/// `str::contains` with a string pattern.
pub fn str_contains(hay: &str, needle: &str) -> (r: bool)
    ensures
        r == contains_text(hay@, needle@),
{
    let h = hay.unicode_len();
    let n = needle.unicode_len();
    if n > h {
        return false;
    }
    let last = h - n;
    let mut i: usize = 0;
    loop
        invariant
            n <= h,
            last == h - n,
            i <= last,
            h == hay@.len(),
            n == needle@.len(),
            forall|j: int| 0 <= j < i ==> #[trigger] hay@.subrange(j, j + n) != needle@,
        decreases last - i,
    {
        if matches_at(hay, needle, i) {
            return true;
        }
        if i == last {
            return false;
        }
        i = i + 1;
    }
}

/// What `str::to_lowercase` returns for a string (Unicode case mapping).
pub uninterp spec fn str_lowercase(s: Seq<char>) -> Seq<char>;

/// Lower case of an ASCII character: `A`..`Z` become `a`..`z`, the rest
/// stay.
pub open spec fn ascii_to_lower(c: char) -> char {
    if 'A' <= c <= 'Z' {
        ((c as u32) + 32) as char
    } else {
        c
    }
}

/// Every character of `s` is ASCII.
pub open spec fn all_ascii(s: Seq<char>) -> bool {
    forall|i: int| 0 <= i < s.len() ==> (#[trigger] s[i] as u32) < 128
}

/// `str::to_lowercase`: the lower-case mapping of `s`, a function of `s`
/// alone. Unicode's lower-case mapping of an ASCII character is its
/// ASCII lower case, so an ASCII text is lowered character by character.
#[verifier::external_body]
fn to_lowercase(s: &str) -> (r: String)
    ensures
        r@ == str_lowercase(s@),
        all_ascii(s@) ==> r@ == s@.map_values(|c: char| ascii_to_lower(c)),
{
    s.to_lowercase()
}

/// A lower-cased error message that only reports an empty poll window.
pub open spec fn benign_lowered(lowered: Seq<char>) -> bool {
    contains_text(lowered, "timed out"@) || contains_text(lowered, "timeout"@)
        || contains_text(lowered, "would block"@)
}

/// Decide [`benign_lowered`] for an already lower-cased message.
pub fn is_benign_lowered(lowered: &str) -> (r: bool)
    ensures
        r == benign_lowered(lowered@),
{
    str_contains(lowered, "timed out") || str_contains(lowered, "timeout")
        || str_contains(lowered, "would block")
}

/// Is this `recv` failure just a quiet poll window (its lower-cased text
/// mentions `timed out`, `timeout` or `would block`)?
pub fn is_benign_recv_error(msg: &str) -> (r: bool)
    ensures
        r == benign_lowered(str_lowercase(msg@)),
        all_ascii(msg@) ==> r == benign_lowered(msg@.map_values(|c: char| ascii_to_lower(c))),
{
    let lowered = to_lowercase(msg);
    is_benign_lowered(lowered.as_str())
}

} // verus!
