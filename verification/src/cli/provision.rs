//! `provision` subcommand: assign a board its node id from a role name
//! (`ecu`, `ams`, `udv`) or from the file name of its firmware artifact.
use vstd::prelude::*;
use crate::firmware::loader::ascii_lower;
use crate::parse::{trim, trim_spec};

verus! {

/// `provision` arguments.
#[derive(Clone, Debug)]
pub struct ProvisionArgs {
    /// A role name, or a path whose file name names a role.
    pub role: String,
    /// Skip the reset after the write.
    pub no_reset: bool,
    /// Skip the confirmation prompt.
    pub yes: bool,
}

/// The bootloader's NVM key of the node id.
pub const BL_NVM_KEY_NODE_ID: u16 = 0x0001;

/// The role registry: name and node id of each board on the bus.
pub fn roles() -> (r: Vec<(&'static str, u8)>)
    ensures
        r@.len() == 3,
        r@[0].0@ == "ecu"@ && r@[0].1 == 1,
        r@[1].0@ == "ams"@ && r@[1].1 == 2,
        r@[2].0@ == "udv"@ && r@[2].1 == 3,
{
    let mut r: Vec<(&'static str, u8)> = Vec::new();
    r.push(("ecu", 1));
    r.push(("ams", 2));
    r.push(("udv", 3));
    r
}

/// Where a resolved role came from.
#[derive(Clone, Copy, Debug, PartialEq, Eq)]
pub enum RoleSource {
    /// The role was named directly.
    Explicit,
    /// The role was taken from a firmware path's file name; the text is
    /// the canonical role name.
    FromPath(&'static str),
}

/// ASCII case-insensitive equality.
pub open spec fn eq_ic(a: Seq<char>, b: Seq<char>) -> bool {
    a.len() == b.len() && forall|i: int| 0 <= i < a.len() ==> ascii_lower(#[trigger] a[i]) == ascii_lower(b[i])
}

fn eq_ignore_ascii_case(a: &str, b: &str) -> (r: bool)
    ensures
        r == eq_ic(a@, b@),
{
    let n = a.unicode_len();
    if n != b.unicode_len() {
        return false;
    }
    let mut i: usize = 0;
    while i < n
        invariant
            n == a@.len(),
            n == b@.len(),
            i <= n,
            forall|j: int| 0 <= j < i ==> ascii_lower(#[trigger] a@[j]) == ascii_lower(b@[j]),
        decreases n - i,
    {
        if lower_char(a.get_char(i)) != lower_char(b.get_char(i)) {
            return false;
        }
        i = i + 1;
    }
    true
}

fn lower_char(c: char) -> (r: char)
    ensures
        r == ascii_lower(c),
{
    if 'A' <= c && c <= 'Z' {
        let v = (c as u32) + 32;
        ((v as u8) as char)
    } else {
        c
    }
}

/// The role a name denotes, compared without regard to ASCII case.
pub open spec fn role_of(name: Seq<char>) -> Option<(Seq<char>, u8)> {
    if eq_ic(name, "ecu"@) {
        Some(("ecu"@, 1u8))
    } else if eq_ic(name, "ams"@) {
        Some(("ams"@, 2u8))
    } else if eq_ic(name, "udv"@) {
        Some(("udv"@, 3u8))
    } else {
        None
    }
}

/// Look a role up by name, case-insensitively.
pub fn lookup_role(name: &str) -> (r: Option<(&'static str, u8)>)
    ensures
        match role_of(name@) {
            Some((alias, id)) => r matches Some((a, i)) && a@ == alias && i == id,
            None => r is None,
        },
{
    let table = roles();
    let mut k: usize = 0;
    while k < 3
        invariant
            k <= 3,
            table@.len() == 3,
            table@[0].0@ == "ecu"@ && table@[0].1 == 1,
            table@[1].0@ == "ams"@ && table@[1].1 == 2,
            table@[2].0@ == "udv"@ && table@[2].1 == 3,
            k > 0 ==> !eq_ic(name@, "ecu"@),
            k > 1 ==> !eq_ic(name@, "ams"@),
            k > 2 ==> !eq_ic(name@, "udv"@),
        decreases 3 - k,
    {
        let (alias, id) = table[k];
        if eq_ignore_ascii_case(alias, name) {
            proof {
                assert forall|i: int| 0 <= i < name@.len() implies ascii_lower(#[trigger] name@[i]) == ascii_lower(
                    alias@[i],
                ) by {
                    assert(ascii_lower(alias@[i]) == ascii_lower(name@[i]));
                }
            }
            return Some((alias, id));
        }
        proof {
            if eq_ic(name@, alias@) {
                assert forall|i: int| 0 <= i < alias@.len() implies ascii_lower(#[trigger] alias@[i]) == ascii_lower(
                    name@[i],
                ) by {
                    assert(ascii_lower(name@[i]) == ascii_lower(alias@[i]));
                }
            }
        }
        k = k + 1;
    }
    None
}

/// Index of the last occurrence of `c` in `s`, or -1.
pub open spec fn last_index(s: Seq<char>, c: char) -> int
    decreases s.len(),
{
    if s.len() == 0 {
        -1
    } else if s.last() == c {
        s.len() - 1
    } else {
        last_index(s.drop_last(), c)
    }
}

/// Index of the last path separator (`/` or `\`) in `s`, or -1.
pub open spec fn last_sep(s: Seq<char>) -> int
    decreases s.len(),
{
    if s.len() == 0 {
        -1
    } else if s.last() == '/' || s.last() == '\\' {
        s.len() - 1
    } else {
        last_sep(s.drop_last())
    }
}

/// A firmware-artifact extension: `elf`, `hex` or `bin`, any case.
pub open spec fn is_fw_ext(e: Seq<char>) -> bool {
    eq_ic(e, "elf"@) || eq_ic(e, "hex"@) || eq_ic(e, "bin"@)
}

/// The text after the last `.` is a firmware extension.
pub open spec fn has_fw_ext(s: Seq<char>) -> bool {
    let k = last_index(s, '.');
    k >= 0 && is_fw_ext(s.subrange(k + 1, s.len() as int))
}

/// A value is a path when it holds a separator or ends in a firmware
/// extension.
pub open spec fn looks_like_path_spec(s: Seq<char>) -> bool {
    s.contains('/') || s.contains('\\') || has_fw_ext(s)
}

/// The file name of a path: what follows its last separator.
pub open spec fn basename(s: Seq<char>) -> Seq<char> {
    s.subrange(last_sep(s) + 1, s.len() as int)
}

/// The file name without a firmware extension; `None` when the path ends
/// in a separator.
pub open spec fn path_stem_spec(s: Seq<char>) -> Option<Seq<char>> {
    let b = basename(s);
    let k = last_index(b, '.');
    if b.len() == 0 {
        None
    } else if k > 0 && is_fw_ext(b.subrange(k + 1, b.len() as int)) {
        Some(b.subrange(0, k))
    } else {
        Some(b)
    }
}

proof fn lemma_last_index(s: Seq<char>, c: char)
    ensures
        -1 <= last_index(s, c) < s.len(),
        last_index(s, c) >= 0 ==> s[last_index(s, c)] == c,
        forall|j: int| last_index(s, c) < j < s.len() ==> s[j] != c,
    decreases s.len(),
{
    if s.len() > 0 && s.last() != c {
        lemma_last_index(s.drop_last(), c);
        assert forall|j: int| last_index(s, c) < j < s.len() implies s[j] != c by {
            if j < s.len() - 1 {
                assert(s.drop_last()[j] == s[j]);
            }
        }
    }
}

proof fn lemma_last_sep(s: Seq<char>)
    ensures
        -1 <= last_sep(s) < s.len(),
        forall|j: int| last_sep(s) < j < s.len() ==> s[j] != '/' && s[j] != '\\',
        last_sep(s) >= 0 ==> (s[last_sep(s)] == '/' || s[last_sep(s)] == '\\'),
    decreases s.len(),
{
    if s.len() > 0 && !(s.last() == '/' || s.last() == '\\') {
        lemma_last_sep(s.drop_last());
        assert forall|j: int| last_sep(s) < j < s.len() implies s[j] != '/' && s[j] != '\\' by {
            if j < s.len() - 1 {
                assert(s.drop_last()[j] == s[j]);
            }
        }
    }
}

/// Index of the last `c` in `s`.
fn find_last(s: &str, c: char) -> (r: Option<usize>)
    ensures
        match r {
            Some(k) => k == last_index(s@, c),
            None => last_index(s@, c) == -1,
        },
{
    let n = s.unicode_len();
    let mut i: usize = n;
    proof {
        assert(s@.subrange(0, n as int) =~= s@);
    }
    while i > 0
        invariant
            i <= n,
            n == s@.len(),
            last_index(s@, c) == last_index(s@.subrange(0, i as int), c),
        decreases i,
    {
        if s.get_char(i - 1) == c {
            proof {
                assert(s@.subrange(0, i as int).last() == s@[i - 1]);
            }
            return Some(i - 1);
        }
        proof {
            assert(s@.subrange(0, i as int).drop_last() =~= s@.subrange(0, i - 1));
        }
        i = i - 1;
    }
    proof {
        assert(s@.subrange(0, 0) =~= Seq::<char>::empty());
    }
    None
}

/// Index of the last separator in `s`.
fn find_last_sep(s: &str) -> (r: Option<usize>)
    ensures
        match r {
            Some(k) => k == last_sep(s@),
            None => last_sep(s@) == -1,
        },
{
    let n = s.unicode_len();
    let mut i: usize = n;
    proof {
        assert(s@.subrange(0, n as int) =~= s@);
    }
    while i > 0
        invariant
            i <= n,
            n == s@.len(),
            last_sep(s@) == last_sep(s@.subrange(0, i as int)),
        decreases i,
    {
        let ch = s.get_char(i - 1);
        if ch == '/' || ch == '\\' {
            proof {
                assert(s@.subrange(0, i as int).last() == s@[i - 1]);
            }
            return Some(i - 1);
        }
        proof {
            assert(s@.subrange(0, i as int).drop_last() =~= s@.subrange(0, i - 1));
        }
        i = i - 1;
    }
    proof {
        assert(s@.subrange(0, 0) =~= Seq::<char>::empty());
    }
    None
}

fn contains_char(s: &str, c: char) -> (r: bool)
    ensures
        r == s@.contains(c),
{
    let n = s.unicode_len();
    let mut i: usize = 0;
    while i < n
        invariant
            i <= n,
            n == s@.len(),
            forall|j: int| 0 <= j < i ==> s@[j] != c,
        decreases n - i,
    {
        if s.get_char(i) == c {
            proof {
                assert(s@[i as int] == c);
            }
            return true;
        }
        i = i + 1;
    }
    false
}

fn is_firmware_ext(e: &str) -> (r: bool)
    ensures
        r == is_fw_ext(e@),
{
    eq_ignore_ascii_case(e, "elf") || eq_ignore_ascii_case(e, "hex") || eq_ignore_ascii_case(e, "bin")
}

/// Whether a role argument is a path: it holds `/` or `\`, or ends in
/// `.elf` / `.hex` / `.bin` (any case).
pub fn looks_like_path(raw: &str) -> (r: bool)
    ensures
        r == looks_like_path_spec(raw@),
{
    if contains_char(raw, '/') || contains_char(raw, '\\') {
        return true;
    }
    proof {
        lemma_last_index(raw@, '.');
    }
    match find_last(raw, '.') {
        None => false,
        Some(k) => {
            let n = raw.unicode_len();
            let ext = raw.substring_char(k + 1, n);
            is_firmware_ext(ext)
        },
    }
}

/// The file name of a path without a firmware extension; `None` when
/// the path ends in a separator.
pub fn path_stem(raw: &str) -> (r: Option<&str>)
    ensures
        match path_stem_spec(raw@) {
            Some(s) => r matches Some(t) && t@ == s,
            None => r is None,
        },
{
    let n = raw.unicode_len();
    proof {
        lemma_last_sep(raw@);
    }
    let start: usize = match find_last_sep(raw) {
        Some(k) => k + 1,
        None => 0,
    };
    let base = raw.substring_char(start, n);
    let bn = base.unicode_len();
    if bn == 0 {
        return None;
    }
    proof {
        lemma_last_index(base@, '.');
    }
    match find_last(base, '.') {
        Some(k) => {
            if k > 0 {
                let ext = base.substring_char(k + 1, bn);
                if is_firmware_ext(ext) {
                    return Some(base.substring_char(0, k));
                }
            }
        },
        None => {},
    }
    Some(base)
}

/// How a role argument resolves: trimmed, then either a path (role from
/// its file name's stem) or a role name.
pub open spec fn resolve_spec(raw: Seq<char>) -> Option<(u8, Option<Seq<char>>)> {
    let t = trim_spec(raw);
    if t.len() == 0 {
        None
    } else if looks_like_path_spec(t) {
        match path_stem_spec(t) {
            None => None,
            Some(stem) => match role_of(stem) {
                Some((alias, id)) => Some((id, Some(alias))),
                None => None,
            },
        }
    } else {
        match role_of(t) {
            Some((_, id)) => Some((id, None)),
            None => None,
        }
    }
}

/// Resolve a `provision` argument to a node id and where the role came
/// from.
pub fn resolve_role_or_path(raw: &str) -> (r: Option<(u8, RoleSource)>)
    ensures
        match resolve_spec(raw@) {
            None => r is None,
            Some((id, None)) => r == Some((id, RoleSource::Explicit)),
            Some((id, Some(alias))) => r matches Some((i, RoleSource::FromPath(a))) && i == id && a@ == alias,
        },
{
    let trimmed = trim(raw);
    if trimmed.unicode_len() == 0 {
        return None;
    }
    if looks_like_path(trimmed) {
        match path_stem(trimmed) {
            None => None,
            Some(stem) => match lookup_role(stem) {
                Some((alias, id)) => Some((id, RoleSource::FromPath(alias))),
                None => None,
            },
        }
    } else {
        match lookup_role(trimmed) {
            Some((_, id)) => Some((id, RoleSource::Explicit)),
            None => None,
        }
    }
}

/// Every role has its own node id, and none is the broadcast id `0xF`.
pub proof fn lemma_role_ids_distinct(a: Seq<char>, b: Seq<char>)
    ensures
        role_of(a) matches Some(ra) ==> ra.1 < 0xF,
        role_of(a) matches Some(ra) ==> (role_of(b) matches Some(rb) ==> (ra.1 == rb.1 ==> ra.0 == rb.0)),
{
}

} // verus!
