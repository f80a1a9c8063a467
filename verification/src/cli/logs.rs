//! `logs` subcommand: listing and pulling the log files a board keeps on
//! its microSD card. The transfer itself runs over a session; this module
//! holds what the subcommand decides and prints around it: the paging of
//! the listing, the pull's progress and completeness checks, and the
//! listing's table and JSON forms.
use vstd::prelude::*;
use crate::text::{dec, hex_upper, pad_left, pad_right, push_dec, push_dec_right, push_hex_upper};

verus! {

/// `cf logs`.
pub struct LogsArgs {
    pub command: LogsCommand,
}

/// The two `logs` actions.
pub enum LogsCommand {
    /// List the files on the card.
    List,
    /// Pull one file (`--index`) or all of them.
    Pull(PullArgs),
}

/// `cf logs pull`.
pub struct PullArgs {
    /// Index of the file to pull; all files when absent.
    pub index: Option<u16>,
    /// Output directory (`.` by default).
    pub out: String,
    /// Skip the CRC check against the node (`--no-verify`).
    pub skip_verify: bool,
}

/// One file of the card's listing.
#[derive(Clone, Debug, PartialEq)]
pub struct LogEntry {
    pub index: u16,
    pub name: String,
    pub size: u32,
    /// Boot-relative modification stamp (the board has no RTC).
    pub mtime: u32,
}

// ---- Listing ----

/// Where the listing continues after a page: `None` after the last page,
/// an error when the node hands back the same cursor (it would loop).
pub fn next_list_cursor(cursor: u16, next: u16, is_last: bool) -> (r: Result<Option<u16>, String>)
    ensures
        is_last ==> r == Ok::<Option<u16>, String>(None),
        !is_last && next != cursor ==> r == Ok::<Option<u16>, String>(Some(next)),
        !is_last && next == cursor ==> (r matches Err(m) && m@ == "LOGFS_LIST cursor did not advance (stuck at "@
            + dec(cursor as nat) + ") — aborting"@),
{
    if is_last {
        Ok(None)
    } else if next == cursor {
        let mut m = String::from_str("LOGFS_LIST cursor did not advance (stuck at ");
        push_dec(&mut m, cursor as u64);
        m.append(") — aborting");
        Err(m)
    } else {
        Ok(Some(next))
    }
}

/// Which entries a pull takes: the first with the requested index, or all.
pub open spec fn first_with_index(entries: Seq<LogEntry>, index: u16) -> Option<int> {
    if exists|k: int| 0 <= k < entries.len() && entries[k].index == index {
        Some(choose|k: int| 0 <= k < entries.len() && entries[k].index == index
            && forall|j: int| 0 <= j < k ==> entries[j].index != index)
    } else {
        None
    }
}

/// Positions (into `entries`) of the files a pull takes: the first one
/// with `index` when an index is given (an error when none has it), every
/// file otherwise.
pub fn select_entries(entries: &Vec<LogEntry>, index: Option<u16>) -> (r: Result<Vec<usize>, String>)
    ensures
        index is None ==> (r matches Ok(v) && v@.len() == entries@.len() && (forall|k: int|
            0 <= k < v@.len() ==> v@[k] == k)),
        index matches Some(i) ==> match r {
            Ok(v) => v@.len() == 1 && v@[0] < entries@.len() && entries@[v@[0] as int].index == i
                && (forall|j: int| 0 <= j < v@[0] ==> entries@[j].index != i),
            Err(m) => (forall|j: int| 0 <= j < entries@.len() ==> entries@[j].index != i) && m@
                == "no log with index "@ + dec(i as nat) + " on the card (try `cf logs list`)"@,
        },
{
    match index {
        None => {
            let mut v: Vec<usize> = Vec::new();
            let mut k: usize = 0;
            while k < entries.len()
                invariant
                    k <= entries@.len(),
                    v@.len() == k,
                    forall|j: int| 0 <= j < k ==> v@[j] == j,
                decreases entries@.len() - k,
            {
                v.push(k);
                k = k + 1;
            }
            Ok(v)
        },
        Some(i) => {
            let mut k: usize = 0;
            while k < entries.len()
                invariant
                    k <= entries@.len(),
                    index == Some(i),
                    forall|j: int| 0 <= j < k ==> entries@[j].index != i,
                decreases entries@.len() - k,
            {
                if entries[k].index == i {
                    let mut v: Vec<usize> = Vec::new();
                    v.push(k);
                    return Ok(v);
                }
                k = k + 1;
            }
            let mut m = String::from_str("no log with index ");
            push_dec(&mut m, i as u64);
            m.append(" on the card (try `cf logs list`)");
            Err(m)
        },
    }
}

/// One listing row: `{index:>5}  {name:<12} {size:>10}  {mtime:>12}`.
pub open spec fn list_row(e: LogEntry) -> Seq<char> {
    pad_left(dec(e.index as nat), 5, ' ') + "  "@ + pad_right(e.name@, 12) + " "@ + pad_left(
        dec(e.size as nat),
        10,
        ' ',
    ) + "  "@ + pad_left(dec(e.mtime as nat), 12, ' ') + "\n"@
}

/// Rows of the first `k` entries.
pub open spec fn list_rows(entries: Seq<LogEntry>, k: int) -> Seq<char>
    decreases k,
{
    if k <= 0 {
        Seq::empty()
    } else {
        list_rows(entries, k - 1) + list_row(entries[k - 1])
    }
}

/// What `cf logs list` prints: a note when the card is empty, otherwise a
/// header, one row per file and a count with a reminder that the stamps
/// only order the files.
pub open spec fn list_human_text(entries: Seq<LogEntry>) -> Seq<char> {
    if entries.len() == 0 {
        "no log files on the card\n"@
    } else {
        "INDEX  NAME               SIZE   MTIME(mono)\n"@ + list_rows(entries, entries.len() as int) + "\n"@
            + dec(entries.len()) + " file(s). mtime is boot-relative (no RTC) — ordering only, not a date.\n"@
    }
}

/// Append [`list_row`] of `e`.
fn push_list_row(s: &mut String, e: &LogEntry)
    ensures
        final(s)@ == old(s)@ + list_row(*e),
{
    push_dec_right(s, e.index as u64, 5);
    s.append("  ");
    crate::text::push_left_aligned(s, e.name.as_str(), 12);
    s.append(" ");
    push_dec_right(s, e.size as u64, 10);
    s.append("  ");
    push_dec_right(s, e.mtime as u64, 12);
    s.append("\n");
    assert(s@ =~= old(s)@ + list_row(*e));
}

/// Render [`list_human_text`].
pub fn list_human(entries: &Vec<LogEntry>) -> (s: String)
    ensures
        s@ == list_human_text(entries@),
{
    if entries.len() == 0 {
        return String::from_str("no log files on the card\n");
    }
    let mut s = String::from_str("INDEX  NAME               SIZE   MTIME(mono)\n");
    let ghost head = s@;
    let mut k: usize = 0;
    while k < entries.len()
        invariant
            k <= entries@.len(),
            s@ == head + list_rows(entries@, k as int),
        decreases entries@.len() - k,
    {
        push_list_row(&mut s, &entries[k]);
        assert(s@ =~= head + list_rows(entries@, k + 1));
        k = k + 1;
    }
    s.append("\n");
    push_dec(&mut s, entries.len() as u64);
    s.append(" file(s). mtime is boot-relative (no RTC) — ordering only, not a date.\n");
    assert(s@ =~= list_human_text(entries@));
    s
}

/// One JSON object of the listing (the name is written as is).
pub open spec fn list_item_json(e: LogEntry) -> Seq<char> {
    "{\"index\":"@ + dec(e.index as nat) + ",\"name\":\""@ + e.name@ + "\",\"size\":"@ + dec(e.size as nat)
        + ",\"mtimeMonotonic\":"@ + dec(e.mtime as nat) + "}"@
}

/// The objects of the first `k` entries, comma separated.
pub open spec fn list_items_json(entries: Seq<LogEntry>, k: int) -> Seq<char>
    decreases k,
{
    if k <= 0 {
        Seq::empty()
    } else if k == 1 {
        list_item_json(entries[0])
    } else {
        list_items_json(entries, k - 1) + ","@ + list_item_json(entries[k - 1])
    }
}

/// What `cf logs list --json` prints: one array and a newline.
pub open spec fn list_json_text(entries: Seq<LogEntry>) -> Seq<char> {
    "["@ + list_items_json(entries, entries.len() as int) + "]\n"@
}

/// Append [`list_item_json`] of `e`.
fn push_list_item_json(s: &mut String, e: &LogEntry)
    ensures
        final(s)@ == old(s)@ + list_item_json(*e),
{
    s.append("{\"index\":");
    push_dec(s, e.index as u64);
    s.append(",\"name\":\"");
    s.append(e.name.as_str());
    s.append("\",\"size\":");
    push_dec(s, e.size as u64);
    s.append(",\"mtimeMonotonic\":");
    push_dec(s, e.mtime as u64);
    s.append("}");
    assert(s@ =~= old(s)@ + list_item_json(*e));
}

/// Render [`list_json_text`].
pub fn list_json(entries: &Vec<LogEntry>) -> (s: String)
    ensures
        s@ == list_json_text(entries@),
{
    let mut s = String::from_str("[");
    let ghost head = s@;
    let mut k: usize = 0;
    while k < entries.len()
        invariant
            k <= entries@.len(),
            s@ == head + list_items_json(entries@, k as int),
        decreases entries@.len() - k,
    {
        if k > 0 {
            s.append(",");
        }
        push_list_item_json(&mut s, &entries[k]);
        assert(s@ =~= head + list_items_json(entries@, k + 1));
        k = k + 1;
    }
    s.append("]\n");
    assert(s@ =~= list_json_text(entries@));
    s
}

// ---- Pulling ----

/// `a + b`, saturating at `u32::MAX`.
pub open spec fn sat_add_u32(a: u32, b: u32) -> u32 {
    if a + b > u32::MAX {
        u32::MAX
    } else {
        (a + b) as u32
    }
}

/// The bytes of a pull received so far and the read offset (the byte count,
/// saturating at `u32::MAX` as the wire's offset field does).
pub struct PullBuffer {
    pub offset: u32,
    pub data: Vec<u8>,
}

/// What the pull loop does after a `LOGFS_READ` reply.
#[derive(Clone, Copy, Debug, PartialEq, Eq, Structural)]
pub enum ReadStep {
    /// The node signalled end of file.
    Done,
    /// Ask for the next chunk.
    Continue,
    /// No data and no end of file: the transfer is stuck.
    Stalled,
}

impl PullBuffer {
    /// The offset is the number of bytes received, saturated at `u32::MAX`.
    pub open spec fn wf(&self) -> bool {
        self.offset == if self.data@.len() > u32::MAX { u32::MAX as int } else { self.data@.len() as int }
    }

    /// Nothing received yet.
    pub fn new() -> (b: PullBuffer)
        ensures
            b.wf(),
            b.offset == 0,
            b.data@.len() == 0,
    {
        PullBuffer { offset: 0, data: Vec::new() }
    }

    /// Take one `LOGFS_READ` reply: append its bytes, advance the offset,
    /// and say whether the pull is done, continues or has stalled.
    pub fn take_chunk(&mut self, chunk: &[u8], eof: bool) -> (step: ReadStep)
        ensures
            old(self).wf() && chunk@.len() <= u32::MAX ==> final(self).wf(),
            final(self).data@ == old(self).data@ + chunk@,
            final(self).offset == sat_add_u32(old(self).offset, #[verifier::truncate] (chunk@.len() as u32)),
            step == if eof {
                ReadStep::Done
            } else if chunk@.len() == 0 {
                ReadStep::Stalled
            } else {
                ReadStep::Continue
            },
    {
        let mut i: usize = 0;
        let ghost start = self.data@;
        while i < chunk.len()
            invariant
                i <= chunk@.len(),
                self.offset == old(self).offset,
                self.data@ == start + chunk@.take(i as int),
            decreases chunk@.len() - i,
        {
            self.data.push(chunk[i]);
            i = i + 1;
            assert(self.data@ =~= start + chunk@.take(i as int));
        }
        assert(chunk@.take(chunk@.len() as int) =~= chunk@);
        #[verifier::truncate]
        let n: u32 = chunk.len() as u32;
        let sum: u64 = self.offset as u64 + n as u64;
        self.offset = if sum > u32::MAX as u64 {
            u32::MAX
        } else {
            sum as u32
        };
        if eof {
            ReadStep::Done
        } else if chunk.len() == 0 {
            ReadStep::Stalled
        } else {
            ReadStep::Continue
        }
    }
}

/// Percentage of `size` received at `offset`, capped at 100.
pub fn pull_percent(offset: u32, size: u32) -> (p: u64)
    requires
        size > 0,
    ensures
        p == if offset as int * 100 / size as int > 100 { 100 } else { offset as int * 100 / size as int },
{
    let p = (offset as u64) * 100 / (size as u64);
    if p > 100 {
        100
    } else {
        p
    }
}

/// The progress line the pull redraws: `\r  NAME … PCT% (OFFSET/SIZE B)`.
pub open spec fn pull_progress_text(name: Seq<char>, pct: u64, offset: u32, size: u32) -> Seq<char> {
    "\r  "@ + name + " … "@ + pad_left(dec(pct as nat), 3, ' ') + "% ("@ + dec(offset as nat) + "/"@ + dec(
        size as nat,
    ) + " B)"@
}

/// Render [`pull_progress_text`] for the file `name`.
pub fn pull_progress_line(name: &str, offset: u32, size: u32) -> (s: String)
    requires
        size > 0,
    ensures
        s@ == pull_progress_text(
            name@,
            if offset as int * 100 / size as int > 100 { 100 } else { (offset as int * 100 / size as int) as u64 },
            offset,
            size,
        ),
{
    let pct = pull_percent(offset, size);
    let mut s = String::from_str("\r  ");
    s.append(name);
    s.append(" … ");
    push_dec_right(&mut s, pct, 3);
    s.append("% (");
    push_dec(&mut s, offset as u64);
    s.append("/");
    push_dec(&mut s, size as u64);
    s.append(" B)");
    s
}

/// Error for a `LOGFS_READ` that returned nothing before end of file.
pub fn stalled_message(offset: u32) -> (m: String)
    ensures
        m@ == "LOGFS_READ returned no data before EOF at offset "@ + dec(offset as nat),
{
    let mut m = String::from_str("LOGFS_READ returned no data before EOF at offset ");
    push_dec(&mut m, offset as u64);
    m
}

/// The transfer produced the size the node announced (a zero announced
/// size is not checked; the length is compared as the wire's `u32`).
pub fn check_pull_size(name: &str, expected: u32, got: usize) -> (r: Result<(), String>)
    ensures
        r is Ok <==> (expected == 0 || got as u32 == expected),
        r matches Err(m) ==> m@ == "size mismatch for "@ + name@ + ": OPEN said "@ + dec(expected as nat)
            + " B, transfer produced "@ + dec(got as nat) + " B"@,
{
    #[verifier::truncate]
    let g: u32 = got as u32;
    if expected > 0 && g != expected {
        let mut m = String::from_str("size mismatch for ");
        m.append(name);
        m.append(": OPEN said ");
        push_dec(&mut m, expected as u64);
        m.append(" B, transfer produced ");
        push_dec(&mut m, got as u64);
        m.append(" B");
        Err(m)
    } else {
        Ok(())
    }
}

/// The node's CRC of the file matches the CRC of the bytes received.
pub fn check_pull_crc(name: &str, want: u32, got: u32) -> (r: Result<(), String>)
    ensures
        r is Ok <==> want == got,
        r matches Err(m) ==> m@ == "CRC mismatch for "@ + name@ + ": node says 0x"@ + hex_upper(want as nat, 8)
            + ", received bytes are 0x"@ + hex_upper(got as nat, 8),
{
    if want != got {
        let mut m = String::from_str("CRC mismatch for ");
        m.append(name);
        m.append(": node says 0x");
        push_hex_upper(&mut m, want as u64, 8);
        m.append(", received bytes are 0x");
        push_hex_upper(&mut m, got as u64, 8);
        Err(m)
    } else {
        Ok(())
    }
}

// ---- Saving a download ----

/// Candidate `n` for the file name of a download: `name` itself, then
/// `name.1`, `name.2`, ….
pub open spec fn candidate_text(name: Seq<char>, n: nat) -> Seq<char> {
    if n == 0 {
        name
    } else {
        name + seq!['.'] + dec(n)
    }
}

/// The first candidate from `n` on that `taken` does not mark as
/// existing (every candidate past the end of `taken` is free).
pub open spec fn first_free(taken: Seq<bool>, n: nat) -> nat
    decreases taken.len() - n,
{
    if n < taken.len() && taken[n as int] {
        first_free(taken, n + 1)
    } else {
        n
    }
}

/// The file name a download of `name` is saved under, so that no
/// existing download is clobbered: `taken[n]` says whether candidate `n`
/// (see [`candidate_text`]) already exists, a missing entry meaning it
/// does not. The first free candidate wins, so the result is never one
/// that exists.
pub fn unique_path(name: &str, taken: &[bool]) -> (s: String)
    ensures
        s@ == candidate_text(name@, first_free(taken@, 0)),
        !(first_free(taken@, 0) < taken@.len() && taken@[first_free(taken@, 0) as int]),
        forall|k: int| 0 <= k < first_free(taken@, 0) ==> k < taken@.len() && #[trigger] taken@[k],
{
    let mut n: usize = 0;
    while n < taken.len() && taken[n]
        invariant
            n <= taken@.len(),
            first_free(taken@, 0) == first_free(taken@, n as nat),
            forall|k: int| 0 <= k < n ==> #[trigger] taken@[k],
        decreases taken@.len() - n,
    {
        n = n + 1;
    }
    assert(first_free(taken@, n as nat) == n);
    let mut s = String::from_str(name);
    if n > 0 {
        s.push('.');
        push_dec(&mut s, n as u64);
    }
    s
}

/// A listing row shows the index right-aligned in five columns, the name left-aligned in twelve, the size right-aligned in ten and the monotonic time right-aligned in twelve, in that order.
pub proof fn lemma_list_row_pieces(e: LogEntry)
    ensures
        list_row(e) == ({
            pad_left(dec(e.index as nat), 5, ' ') + "  "@ + pad_right(e.name@, 12) + " "@ + pad_left(
                dec(e.size as nat),
                10,
                ' ',
            ) + "  "@ + pad_left(dec(e.mtime as nat), 12, ' ') + "\n"@
        }),
{
}

/// A listing object names each field by its key: `index`, `name`, `size`, `mtimeMonotonic`, in that order.
pub proof fn lemma_list_item_json_pieces(e: LogEntry)
    ensures
        list_item_json(e) == ({
            "{\"index\":"@ + dec(e.index as nat) + ",\"name\":\""@ + e.name@ + "\",\"size\":"@ + dec(e.size as nat)
                + ",\"mtimeMonotonic\":"@ + dec(e.mtime as nat) + "}"@
        }),
{
}

/// The pull progress line shows the file name, the percentage right-aligned in three columns, then the offset over the size in bytes.
pub proof fn lemma_pull_progress_text_pieces(name: Seq<char>, pct: u64, offset: u32, size: u32)
    ensures
        pull_progress_text(name, pct, offset, size) == ({
            "\r  "@ + name + " … "@ + pad_left(dec(pct as nat), 3, ' ') + "% ("@ + dec(offset as nat) + "/"@ + dec(
                size as nat,
            ) + " B)"@
        }),
{
}

} // verus!
