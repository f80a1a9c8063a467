//! `flash --profile`: the timeline of engine events and the per-sector
//! intervals between written chunks, and the summary printed at the end
//! (time per phase, chunk-interval statistics per sector). Times are
//! nanoseconds since the run started; the summary shows whole milliseconds.
use vstd::prelude::*;
use vstd::relations::{sorted_by, total_ordering};
use crate::flash::{FlashEvent, SectorRole};
use crate::text::{dec, hex_upper, pad_left, push_dec_right, push_hex_upper};

verus! {

/// A [`FlashEvent`] without its payload, enough to find phase boundaries.
#[derive(Clone, Copy, Debug, PartialEq, Eq, Structural)]
pub enum FlashEventKind {
    PlanningSector { sector: u8, role: SectorRole },
    Erased { sector: u8 },
    ChunkWritten { sector: u8, bytes: u32, total: u32 },
    SectorVerified { sector: u8 },
    Committing,
    Done,
}

impl FlashEventKind {
    /// The kind of an engine event.
    pub fn from_event(e: &FlashEvent) -> (k: FlashEventKind)
        ensures
            k == match *e {
                FlashEvent::PlanningSector { sector, role } => FlashEventKind::PlanningSector { sector, role },
                FlashEvent::Erased { sector } => FlashEventKind::Erased { sector },
                FlashEvent::ChunkWritten { sector, bytes, total } => FlashEventKind::ChunkWritten { sector, bytes, total },
                FlashEvent::SectorVerified { sector, .. } => FlashEventKind::SectorVerified { sector },
                FlashEvent::Committing => FlashEventKind::Committing,
                FlashEvent::Done { .. } => FlashEventKind::Done,
            },
    {
        match e {
            FlashEvent::PlanningSector { sector, role } => FlashEventKind::PlanningSector { sector: *sector, role: *role },
            FlashEvent::Erased { sector } => FlashEventKind::Erased { sector: *sector },
            FlashEvent::ChunkWritten { sector, bytes, total } => FlashEventKind::ChunkWritten {
                sector: *sector,
                bytes: *bytes,
                total: *total,
            },
            FlashEvent::SectorVerified { sector, .. } => FlashEventKind::SectorVerified { sector: *sector },
            FlashEvent::Committing => FlashEventKind::Committing,
            FlashEvent::Done { .. } => FlashEventKind::Done,
        }
    }
}

/// What `--profile` records during a run.
pub struct ProfileLog {
    /// Every event with its time.
    pub timeline: Vec<(u64, FlashEventKind)>,
    /// `(sector, ms)`: the gap before each chunk after a sector's first.
    pub gaps: Vec<(u8, u64)>,
    /// When each sector (by index) last wrote a chunk.
    pub last_chunk: Vec<Option<u64>>,
}

impl ProfileLog {
    pub open spec fn wf(&self) -> bool {
        self.last_chunk@.len() == 256
    }

    /// Nothing recorded yet.
    pub fn new() -> (p: ProfileLog)
        ensures
            p.wf(),
            p.timeline@.len() == 0,
            p.gaps@.len() == 0,
            forall|s: int| 0 <= s < 256 ==> p.last_chunk@[s] is None,
    {
        let mut last_chunk: Vec<Option<u64>> = Vec::new();
        let mut i: usize = 0;
        while i < 256
            invariant
                i <= 256,
                last_chunk@.len() == i,
                forall|s: int| 0 <= s < i ==> last_chunk@[s] is None,
            decreases 256 - i,
        {
            last_chunk.push(None);
            i = i + 1;
        }
        ProfileLog { timeline: Vec::new(), gaps: Vec::new(), last_chunk }
    }

    /// Record `e` at `now_ns`. A written chunk of a sector that wrote
    /// before adds the gap since that chunk (whole milliseconds, zero if
    /// the clock went backwards).
    pub fn record(&mut self, now_ns: u64, e: &FlashEvent)
        requires
            old(self).wf(),
        ensures
            final(self).wf(),
            final(self).timeline@ == old(self).timeline@.push((now_ns, FlashEventKind::from_event_spec(*e))),
            match *e {
                FlashEvent::ChunkWritten { sector, .. } => {
                    &&& final(self).last_chunk@ == old(self).last_chunk@.update(sector as int, Some(now_ns))
                    &&& final(self).gaps@ == match old(self).last_chunk@[sector as int] {
                        Some(prev) => old(self).gaps@.push(
                            (sector, (if now_ns >= prev { (now_ns - prev) as u64 } else { 0u64 }) / 1_000_000),
                        ),
                        None => old(self).gaps@,
                    }
                },
                _ => final(self).last_chunk@ == old(self).last_chunk@ && final(self).gaps@ == old(self).gaps@,
            },
    {
        let k = FlashEventKind::from_event(e);
        self.timeline.push((now_ns, k));
        if let FlashEvent::ChunkWritten { sector, .. } = e {
            let s = *sector as usize;
            if let Some(prev) = self.last_chunk[s] {
                let gap: u64 = if now_ns >= prev { now_ns - prev } else { 0 };
                self.gaps.push((*sector, gap / 1_000_000));
            }
            self.last_chunk.set(s, Some(now_ns));
        }
    }
}

impl FlashEventKind {
    /// [`FlashEventKind::from_event`] as a specification.
    pub open spec fn from_event_spec(e: FlashEvent) -> FlashEventKind {
        match e {
            FlashEvent::PlanningSector { sector, role } => FlashEventKind::PlanningSector { sector, role },
            FlashEvent::Erased { sector } => FlashEventKind::Erased { sector },
            FlashEvent::ChunkWritten { sector, bytes, total } => FlashEventKind::ChunkWritten { sector, bytes, total },
            FlashEvent::SectorVerified { sector, .. } => FlashEventKind::SectorVerified { sector },
            FlashEvent::Committing => FlashEventKind::Committing,
            FlashEvent::Done { .. } => FlashEventKind::Done,
        }
    }
}

// ---- Summary: phases ----

/// The phase an event closes, or none for a chunk in the middle of a sector.
pub open spec fn phase_label(k: FlashEventKind) -> Option<Seq<char>> {
    match k {
        FlashEventKind::PlanningSector { .. } => Some("plan/diff"@),
        FlashEventKind::Erased { .. } => Some("erase"@),
        FlashEventKind::ChunkWritten { bytes, total, .. } => if bytes == total {
            Some("write (sector complete)"@)
        } else {
            None
        },
        FlashEventKind::SectorVerified { .. } => Some("verify"@),
        FlashEventKind::Committing => Some("pre-commit"@),
        FlashEventKind::Done => Some("commit"@),
    }
}

/// One phase row: the label right-aligned in 20 columns, the milliseconds in 8.
pub open spec fn phase_row(label: Seq<char>, delta_ns: u64) -> Seq<char> {
    "  "@ + pad_left(label, 20, ' ') + " "@ + pad_left(dec((delta_ns / 1_000_000) as nat), 8, ' ') + " ms"@
}

/// Walk the first `k` events: the rows printed so far, the time of the
/// last boundary and the label of the phase it opened.
pub open spec fn phase_walk(t: Seq<(u64, FlashEventKind)>, k: int) -> (Seq<Seq<char>>, u64, Seq<char>)
    decreases k,
{
    if k <= 0 {
        (Seq::empty(), 0, "startup"@)
    } else {
        let (rows, last_at, last_label) = phase_walk(t, k - 1);
        let (at, kind) = t[k - 1];
        match phase_label(kind) {
            None => (rows, last_at, last_label),
            Some(label) => {
                let delta: u64 = if at >= last_at { (at - last_at) as u64 } else { 0 };
                (rows.push(phase_row(last_label, delta)), at, label)
            },
        }
    }
}

fn phase_label_str(k: FlashEventKind) -> (r: Option<&'static str>)
    ensures
        match (r, phase_label(k)) {
            (Some(a), Some(b)) => a@ == b,
            (None, None) => true,
            _ => false,
        },
{
    match k {
        FlashEventKind::PlanningSector { .. } => Some("plan/diff"),
        FlashEventKind::Erased { .. } => Some("erase"),
        FlashEventKind::ChunkWritten { bytes, total, .. } => if bytes == total {
            Some("write (sector complete)")
        } else {
            None
        },
        FlashEventKind::SectorVerified { .. } => Some("verify"),
        FlashEventKind::Committing => Some("pre-commit"),
        FlashEventKind::Done => Some("commit"),
    }
}

fn phase_row_string(label: &str, delta_ns: u64) -> (s: String)
    ensures
        s@ == phase_row(label@, delta_ns),
{
    let mut s = String::from_str("  ");
    crate::text::push_right_aligned(&mut s, label, 20);
    s.append(" ");
    push_dec_right(&mut s, delta_ns / 1_000_000, 8);
    s.append(" ms");
    s
}

// ---- Summary: chunk statistics ----

/// The gaps of one sector, in recording order.
pub open spec fn gaps_of(g: Seq<(u8, u64)>, sector: u8) -> Seq<u64>
    decreases g.len(),
{
    if g.len() == 0 {
        Seq::empty()
    } else if g.last().0 == sector {
        gaps_of(g.drop_last(), sector).push(g.last().1)
    } else {
        gaps_of(g.drop_last(), sector)
    }
}

/// Position of the first element of `s` above `x`, from `i` on.
pub open spec fn first_above(s: Seq<u64>, x: u64, i: int) -> int
    decreases s.len() - i,
{
    if i >= s.len() {
        s.len() as int
    } else if s[i] > x {
        i
    } else {
        first_above(s, x, i + 1)
    }
}

/// `a <= b` on `u64`.
pub open spec fn u64_le() -> spec_fn(u64, u64) -> bool {
    |a: u64, b: u64| a <= b
}

/// The values of `s` in ascending order: the sorted permutation of `s`.
pub open spec fn ascending(s: Seq<u64>) -> Seq<u64> {
    s.sort_by(u64_le())
}

/// Insertion sort: each value goes before the first larger one.
spec fn sort_seq(s: Seq<u64>) -> Seq<u64>
    decreases s.len(),
{
    if s.len() == 0 {
        Seq::empty()
    } else {
        let p = sort_seq(s.drop_last());
        p.insert(first_above(p, s.last(), 0), s.last())
    }
}

/// One statistics row for a sector with sorted gaps `q`: count, min,
/// median, 95th percentile, max.
pub open spec fn chunk_row(sector: u8, q: Seq<u64>) -> Seq<char> {
    let n = q.len();
    let p95i: int = if n * 95 > usize::MAX { (usize::MAX / 100) as int } else { (n * 95 / 100) as int };
    "  0x"@ + hex_upper(sector as nat, 2) + "      "@ + pad_left(dec(n), 6, ' ') + "  "@ + pad_left(
        dec(q[0] as nat),
        6,
        ' ',
    ) + "  "@ + pad_left(dec(q[(n / 2) as int] as nat), 6, ' ') + "  "@ + pad_left(dec(q[p95i] as nat), 6, ' ')
        + "  "@ + pad_left(dec(q[n - 1] as nat), 6, ' ')
}

/// Rows of the sectors `0..s` that recorded gaps.
pub open spec fn chunk_rows(g: Seq<(u8, u64)>, s: int) -> Seq<Seq<char>>
    decreases s,
{
    if s <= 0 {
        Seq::empty()
    } else {
        let prev = chunk_rows(g, s - 1);
        let list = gaps_of(g, (s - 1) as u8);
        if list.len() == 0 {
            prev
        } else {
            prev.push(chunk_row((s - 1) as u8, ascending(list)))
        }
    }
}

/// The summary `--profile` prints after a run, line by line: nothing for
/// an empty timeline; otherwise the total, the time per phase and, when
/// any sector wrote more than one chunk, the chunk-interval table.
pub open spec fn profile_summary_lines(t: Seq<(u64, FlashEventKind)>, g: Seq<(u8, u64)>) -> Seq<Seq<char>> {
    if t.len() == 0 {
        Seq::empty()
    } else {
        let head = seq![
            Seq::<char>::empty(),
            "─────────────── profile ───────────────"@,
            "total flash engine:   "@ + pad_left(dec((t.last().0 / 1_000_000) as nat), 8, ' ') + " ms"@,
        ];
        let phases = phase_walk(t, t.len() as int).0;
        let table = if g.len() == 0 {
            Seq::empty()
        } else {
            seq![
                Seq::<char>::empty(),
                "per-chunk write interval (ms) — by sector:"@,
                "  sector  chunks     min     p50     p95     max"@,
            ] + chunk_rows(g, 256)
        };
        head + phases + table + seq!["────────────────────────────────────────"@]
    }
}

proof fn lemma_gaps_of_len(g: Seq<(u8, u64)>, sector: u8)
    ensures
        gaps_of(g, sector).len() <= g.len(),
    decreases g.len(),
{
    if g.len() > 0 {
        lemma_gaps_of_len(g.drop_last(), sector);
    }
}

fn sector_gaps(g: &Vec<(u8, u64)>, sector: u8) -> (v: Vec<u64>)
    ensures
        v@ == gaps_of(g@, sector),
{
    let mut v: Vec<u64> = Vec::new();
    let mut i: usize = 0;
    while i < g.len()
        invariant
            i <= g@.len(),
            v@ == gaps_of(g@.take(i as int), sector),
        decreases g@.len() - i,
    {
        let (s, ms) = g[i];
        proof {
            let t = g@.take(i + 1);
            assert(t.drop_last() =~= g@.take(i as int));
            assert(t.last() == g@[i as int]);
        }
        if s == sector {
            v.push(ms);
        }
        i = i + 1;
    }
    assert(g@.take(g@.len() as int) =~= g@);
    v
}

proof fn lemma_first_above_bounds(s: Seq<u64>, x: u64, i: int)
    requires
        0 <= i <= s.len(),
    ensures
        i <= first_above(s, x, i) <= s.len(),
    decreases s.len() - i,
{
    if i < s.len() && s[i] <= x {
        lemma_first_above_bounds(s, x, i + 1);
    }
}

proof fn lemma_sort_len(s: Seq<u64>)
    ensures
        sort_seq(s).len() == s.len(),
    decreases s.len(),
{
    if s.len() > 0 {
        lemma_sort_len(s.drop_last());
        lemma_first_above_bounds(sort_seq(s.drop_last()), s.last(), 0);
    }
}

fn sort_gaps(v: &Vec<u64>) -> (r: Vec<u64>)
    ensures
        r@ == ascending(v@),
        r@.len() == v@.len(),
{
    let mut r: Vec<u64> = Vec::new();
    let mut i: usize = 0;
    while i < v.len()
        invariant
            i <= v@.len(),
            r@ == sort_seq(v@.take(i as int)),
        decreases v@.len() - i,
    {
        let x = v[i];
        let mut k: usize = 0;
        proof {
            lemma_sort_len(v@.take(i as int));
        }
        while k < r.len() && r[k] <= x
            invariant
                k <= r@.len(),
                first_above(r@, x, 0) == first_above(r@, x, k as int),
            decreases r@.len() - k,
        {
            k = k + 1;
        }
        proof {
            let t = v@.take(i + 1);
            assert(t.drop_last() =~= v@.take(i as int));
            assert(t.last() == x);
        }
        r.insert(k, x);
        i = i + 1;
    }
    assert(v@.take(v@.len() as int) =~= v@);
    proof {
        lemma_sort_seq_ascending(v@);
        lemma_sort_len(v@);
    }
    r
}

/// Insertion sort gives the sorted permutation.
proof fn lemma_sort_seq_sorted(s: Seq<u64>)
    ensures
        sorted_by(sort_seq(s), u64_le()),
        sort_seq(s).to_multiset() == s.to_multiset(),
    decreases s.len(),
{
    broadcast use vstd::seq_lib::to_multiset_build, vstd::seq_lib::to_multiset_insert;

    if s.len() > 0 {
        let d = s.drop_last();
        let x = s.last();
        lemma_sort_seq_sorted(d);
        let p = sort_seq(d);
        lemma_sort_len(d);
        let i = first_above(p, x, 0);
        lemma_first_above_bounds(p, x, 0);
        lemma_first_above_split(p, x, 0);
        let q = p.insert(i, x);
        assert forall|a: int, b: int| 0 <= a < b < q.len() implies #[trigger] (u64_le())(q[a], q[b]) by {
            assert((u64_le())(q[a], q[b]) == (q[a] <= q[b]));
            if b < i {
                assert((u64_le())(p[a], p[b]));
            } else if b == i {
                assert(q[a] == p[a]);
            } else if a < i {
                assert(q[b] == p[b - 1]);
                if b - 1 >= i {
                    assert(p[i] > x);
                    if b - 1 > i {
                        assert((u64_le())(p[i], p[b - 1]));
                    }
                }
                if a < b - 1 {
                    assert((u64_le())(p[a], p[b - 1]));
                }
            } else if a == i {
                assert(q[b] == p[b - 1]);
                assert(p[i] > x);
                if b - 1 > i {
                    assert((u64_le())(p[i], p[b - 1]));
                }
            } else {
                assert(q[a] == p[a - 1]);
                assert(q[b] == p[b - 1]);
                assert((u64_le())(p[a - 1], p[b - 1]));
            }
        }
        assert(s =~= d.push(x));
        assert(q.to_multiset() == p.to_multiset().insert(x));
    } else {
        assert(s =~= Seq::<u64>::empty());
    }
}

proof fn lemma_first_above_split(s: Seq<u64>, x: u64, i: int)
    requires
        0 <= i <= s.len(),
        forall|j: int| 0 <= j < i ==> s[j] <= x,
    ensures
        forall|j: int| 0 <= j < first_above(s, x, i) ==> s[j] <= x,
        first_above(s, x, i) < s.len() ==> s[first_above(s, x, i)] > x,
    decreases s.len() - i,
{
    if i < s.len() && s[i] <= x {
        lemma_first_above_split(s, x, i + 1);
    }
}

proof fn lemma_sort_seq_ascending(s: Seq<u64>)
    ensures
        sort_seq(s) == ascending(s),
{
    let le = u64_le();
    assert(total_ordering(le)) by {
        assert(vstd::relations::reflexive(le));
        assert(vstd::relations::antisymmetric(le));
        assert(vstd::relations::transitive(le));
        assert(vstd::relations::strongly_connected(le));
    }
    s.lemma_sort_by_ensures(le);
    lemma_sort_seq_sorted(s);
    vstd::seq_lib::lemma_sorted_unique(sort_seq(s), ascending(s), le);
}

fn chunk_row_string(sector: u8, q: &Vec<u64>) -> (s: String)
    requires
        q@.len() > 0,
    ensures
        s@ == chunk_row(sector, q@),
{
    let n = q.len();
    let p95i: usize = if n > usize::MAX / 95 {
        usize::MAX / 100
    } else {
        n * 95 / 100
    };
    assert(p95i < n) by (nonlinear_arith)
        requires
            n > 0,
            p95i == (if n > usize::MAX / 95 { (usize::MAX / 100) as int } else { n * 95 / 100 }),
            n <= usize::MAX,
    ;
    let mut s = String::from_str("  0x");
    push_hex_upper(&mut s, sector as u64, 2);
    s.append("      ");
    push_dec_right(&mut s, n as u64, 6);
    s.append("  ");
    push_dec_right(&mut s, q[0], 6);
    s.append("  ");
    push_dec_right(&mut s, q[n / 2], 6);
    s.append("  ");
    push_dec_right(&mut s, q[p95i], 6);
    s.append("  ");
    push_dec_right(&mut s, q[n - 1], 6);
    assert(s@ =~= chunk_row(sector, q@));
    s
}

/// The texts of a list of lines.
pub open spec fn line_views(v: Seq<String>) -> Seq<Seq<char>> {
    v.map_values(|l: String| l@)
}

proof fn lemma_line_views_push(v: Seq<String>, l: String)
    ensures
        line_views(v.push(l)) == line_views(v).push(l@),
{
    assert(line_views(v.push(l)) =~= line_views(v).push(l@));
}

/// Render [`profile_summary_lines`] for what a run recorded.
pub fn profile_summary(log: &ProfileLog) -> (lines: Vec<String>)
    ensures
        line_views(lines@) == profile_summary_lines(log.timeline@, log.gaps@),
{
    let t = &log.timeline;
    let mut lines: Vec<String> = Vec::new();
    if t.len() == 0 {
        assert(line_views(lines@) =~= profile_summary_lines(log.timeline@, log.gaps@));
        return lines;
    }
    let l0 = String::new();
    let l1 = String::from_str("─────────────── profile ───────────────");
    let (total, _) = t[t.len() - 1];
    let mut tl = String::from_str("total flash engine:   ");
    push_dec_right(&mut tl, total / 1_000_000, 8);
    tl.append(" ms");
    lines.push(l0);
    lines.push(l1);
    lines.push(tl);
    let ghost head = line_views(lines@);
    proof {
        assert(head =~= seq![l0@, l1@, tl@]);
        assert(l0@ =~= Seq::<char>::empty());
    }
    let mut last_at: u64 = 0;
    let mut last_label: &str = "startup";
    let mut i: usize = 0;
    while i < t.len()
        invariant
            i <= t@.len(),
            ({
                let w = phase_walk(t@, i as int);
                &&& line_views(lines@) == head + w.0
                &&& last_at == w.1
                &&& last_label@ == w.2
            }),
        decreases t@.len() - i,
    {
        let (at, kind) = t[i];
        let ghost before = lines@;
        proof {
            assert(t@[i as int] == (at, kind));
        }
        match phase_label_str(kind) {
            None => {},
            Some(label) => {
                let delta: u64 = if at >= last_at { at - last_at } else { 0 };
                let row = phase_row_string(last_label, delta);
                lines.push(row);
                proof {
                    lemma_line_views_push(before, row);
                    assert(line_views(lines@) =~= head + phase_walk(t@, i as int).0.push(row@));
                }
                last_at = at;
                last_label = label;
            },
        }
        i = i + 1;
    }
    let ghost after_phases = line_views(lines@);
    if log.gaps.len() > 0 {
        let m0 = String::new();
        let m1 = String::from_str("per-chunk write interval (ms) — by sector:");
        let m2 = String::from_str("  sector  chunks     min     p50     p95     max");
        lines.push(m0);
        lines.push(m1);
        lines.push(m2);
        let ghost table_head = line_views(lines@);
        proof {
            assert(table_head =~= after_phases + seq![m0@, m1@, m2@]);
            assert(m0@ =~= Seq::<char>::empty());
        }
        let mut sec: u32 = 0;
        while sec < 256
            invariant
                sec <= 256,
                line_views(lines@) == table_head + chunk_rows(log.gaps@, sec as int),
            decreases 256 - sec,
        {
            let list = sector_gaps(&log.gaps, sec as u8);
            let ghost before = lines@;
            if list.len() > 0 {
                let q = sort_gaps(&list);
                proof {
                    lemma_sort_len(list@);
                }
                let row = chunk_row_string(sec as u8, &q);
                lines.push(row);
                proof {
                    lemma_line_views_push(before, row);
                    assert(line_views(lines@) =~= table_head + chunk_rows(log.gaps@, sec as int).push(row@));
                }
            }
            sec = sec + 1;
        }
    }
    let ghost before_tail = lines@;
    let last = String::from_str("────────────────────────────────────────");
    lines.push(last);
    proof {
        lemma_line_views_push(before_tail, last);
    }
    assert(line_views(lines@) =~= profile_summary_lines(log.timeline@, log.gaps@));
    lines
}

/// A phase row shows the label right-aligned in twenty columns and the elapsed whole milliseconds right-aligned in eight.
pub proof fn lemma_phase_row_pieces(label: Seq<char>, delta_ns: u64)
    ensures
        phase_row(label, delta_ns) == ({
            "  "@ + pad_left(label, 20, ' ') + " "@ + pad_left(dec((delta_ns / 1_000_000) as nat), 8, ' ') + " ms"@
        }),
{
}

/// A statistics row shows the sector in two hex digits, then the gap count, the smallest gap, the median, the 95th percentile and the largest gap, each right-aligned in six columns.
pub proof fn lemma_chunk_row_pieces(sector: u8, q: Seq<u64>)
    ensures
        chunk_row(sector, q) == ({
            let n = q.len();
            let p95i: int = if n * 95 > usize::MAX { (usize::MAX / 100) as int } else { (n * 95 / 100) as int };
            "  0x"@ + hex_upper(sector as nat, 2) + "      "@ + pad_left(dec(n), 6, ' ') + "  "@ + pad_left(
                dec(q[0] as nat),
                6,
                ' ',
            ) + "  "@ + pad_left(dec(q[(n / 2) as int] as nat), 6, ' ') + "  "@ + pad_left(dec(q[p95i] as nat), 6, ' ')
                + "  "@ + pad_left(dec(q[n - 1] as nat), 6, ' ')
        }),
{
}

} // verus!
