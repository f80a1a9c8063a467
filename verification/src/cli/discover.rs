//! `discover` subcommand: broadcast a discover request, enrich each
//! responder with its firmware record and health, and render the table.
use vstd::prelude::*;
use crate::text::{dec, hex_lower, hex_upper, pad_right, push_dec, push_hex_upper, push_padded};

verus! {

/// `discover` arguments.
#[derive(Clone, Debug)]
pub struct DiscoverArgs {
    /// Reply window after the broadcast, in milliseconds.
    pub timeout_ms: u32,
}

/// One responder's row of the discover table.
#[derive(Clone, Debug)]
pub struct DiscoverRow {
    pub node_id: u8,
    pub proto_major: u8,
    pub proto_minor: u8,
    pub fw_version: Option<String>,
    pub git_hash: Option<String>,
    pub product: Option<String>,
    /// Why the firmware record could not be read, when it could not.
    pub fw_error: Option<String>,
    pub wrp_protected: Option<bool>,
    pub reset_cause: Option<String>,
    /// Why the health record could not be read, when it could not.
    pub health_error: Option<String>,
}

impl DiscoverRow {
    /// A row with only the discover reply's fields.
    pub fn new(node_id: u8, proto_major: u8, proto_minor: u8) -> (r: DiscoverRow)
        ensures
            r.node_id == node_id,
            r.proto_major == proto_major,
            r.proto_minor == proto_minor,
            r.fw_version is None,
            r.git_hash is None,
            r.product is None,
            r.fw_error is None,
            r.wrp_protected is None,
            r.reset_cause is None,
            r.health_error is None,
    {
        DiscoverRow {
            node_id,
            proto_major,
            proto_minor,
            fw_version: None,
            git_hash: None,
            product: None,
            fw_error: None,
            wrp_protected: None,
            reset_cause: None,
            health_error: None,
        }
    }
}

/// The first four bytes of a git hash as eight lower-case hex digits.
pub fn format_git_hash(bytes: &[u8; 8]) -> (s: String)
    ensures
        s@ == hex_lower(bytes[0] as nat, 2) + hex_lower(bytes[1] as nat, 2) + hex_lower(bytes[2] as nat, 2)
            + hex_lower(bytes[3] as nat, 2),
{
    let mut s = String::new();
    crate::text::push_hex_lower(&mut s, bytes[0] as u64, 2);
    crate::text::push_hex_lower(&mut s, bytes[1] as u64, 2);
    crate::text::push_hex_lower(&mut s, bytes[2] as u64, 2);
    crate::text::push_hex_lower(&mut s, bytes[3] as u64, 2);
    s
}

/// Display width: one column per character.
pub fn display_width(s: &str) -> (w: usize)
    ensures
        w == s@.len(),
{
    s.unicode_len()
}

/// The widest of `cells` and `header`, in characters.
pub open spec fn max_len(header: Seq<char>, cells: Seq<Seq<char>>) -> nat
    decreases cells.len(),
{
    if cells.len() == 0 {
        header.len()
    } else {
        let m = max_len(header, cells.drop_last());
        if cells.last().len() > m {
            cells.last().len()
        } else {
            m
        }
    }
}

/// The views of a list of strings.
pub open spec fn views(v: Seq<String>) -> Seq<Seq<char>> {
    v.map_values(|s: String| s@)
}

/// Width of a column: its widest cell or its header.
pub fn max_width(header: &str, cells: &[String]) -> (w: usize)
    ensures
        w == max_len(header@, views(cells@)),
{
    let mut w = display_width(header);
    let mut i: usize = 0;
    while i < cells.len()
        invariant
            i <= cells@.len(),
            w == max_len(header@, views(cells@).take(i as int)),
        decreases cells@.len() - i,
    {
        let c = display_width(cells[i].as_str());
        proof {
            assert(views(cells@).take(i + 1).drop_last() =~= views(cells@).take(i as int));
            assert(views(cells@).take(i + 1).last() == cells@[i as int]@);
        }
        if c > w {
            w = c;
        }
        i = i + 1;
    }
    proof {
        assert(views(cells@).take(cells@.len() as int) =~= views(cells@));
    }
    w
}

/// The column headers.
pub open spec fn header(k: int) -> Seq<char> {
    if k == 0 {
        "Node"@
    } else if k == 1 {
        "Proto"@
    } else if k == 2 {
        "FW Version"@
    } else if k == 3 {
        "Git Hash"@
    } else if k == 4 {
        "Product"@
    } else if k == 5 {
        "WRP"@
    } else {
        "Reset Cause"@
    }
}

/// An optional text, or the first fallback, or an em dash.
pub open spec fn or_dash(a: Option<String>, b: Option<String>) -> Seq<char> {
    match a {
        Some(s) => s@,
        None => match b {
            Some(t) => t@,
            None => "—"@,
        },
    }
}

/// The text of column `k` of a row.
pub open spec fn cell(r: DiscoverRow, k: int) -> Seq<char> {
    if k == 0 {
        "0x"@ + hex_upper(r.node_id as nat, 2)
    } else if k == 1 {
        dec(r.proto_major as nat) + "."@ + dec(r.proto_minor as nat)
    } else if k == 2 {
        or_dash(r.fw_version, r.fw_error)
    } else if k == 3 {
        or_dash(r.git_hash, None)
    } else if k == 4 {
        or_dash(r.product, None)
    } else if k == 5 {
        match r.wrp_protected {
            Some(true) => "✓"@,
            Some(false) => "✗"@,
            None => "—"@,
        }
    } else {
        or_dash(r.reset_cause, r.health_error)
    }
}

/// Column `k` of every row.
pub open spec fn column(rows: Seq<DiscoverRow>, k: int) -> Seq<Seq<char>> {
    rows.map_values(|r: DiscoverRow| cell(r, k))
}

/// Width of column `k`.
pub open spec fn col_width(rows: Seq<DiscoverRow>, k: int) -> nat {
    max_len(header(k), column(rows, k))
}

/// The first `k` of the texts `f(0)`, `f(1)`, … joined by two spaces.
pub open spec fn joined(f: spec_fn(int) -> Seq<char>, k: int) -> Seq<char>
    decreases k,
{
    if k <= 0 {
        Seq::empty()
    } else if k == 1 {
        f(0)
    } else {
        joined(f, k - 1) + "  "@ + f(k - 1)
    }
}

/// One table line: seven left-aligned cells separated by two spaces.
pub open spec fn table_line(c: spec_fn(int) -> Seq<char>, rows: Seq<DiscoverRow>) -> Seq<char> {
    joined(|j: int| pad_right(c(j), col_width(rows, j)), 7) + "\n"@
}

/// `n` box-drawing dashes.
pub open spec fn rule(n: nat) -> Seq<char> {
    Seq::new(n, |i: int| '─')
}

/// The rule line under the headers.
pub open spec fn rule_line(rows: Seq<DiscoverRow>) -> Seq<char> {
    joined(|j: int| rule(col_width(rows, j)), 7) + "\n"@
}

/// The data lines of rows `0..k`.
pub open spec fn data_lines(rows: Seq<DiscoverRow>, k: int) -> Seq<char>
    decreases k,
{
    if k <= 0 {
        Seq::empty()
    } else {
        data_lines(rows, k - 1) + table_line(|c: int| cell(rows[k - 1], c), rows)
    }
}

/// The hint printed when nobody answered.
pub open spec fn no_reply_text() -> Seq<char> {
    "No bootloaders replied to CMD_DISCOVER within the window.\nHints:\n  * Check that the adapter is up (`can-flasher adapters`).\n  * Confirm the bitrate matches the bus (`--bitrate 500000` is the default).\n  * Try a longer timeout (`--timeout-ms 2000`).\n  * Verify the device has power and is in bootloader mode.\n"@
}

/// The human-readable discover report.
pub open spec fn human_text(rows: Seq<DiscoverRow>) -> Seq<char> {
    if rows.len() == 0 {
        no_reply_text()
    } else {
        header_line(rows) + rule_line(rows) + data_lines(rows, rows.len() as int)
    }
}

/// The header line.
pub open spec fn header_line(rows: Seq<DiscoverRow>) -> Seq<char> {
    table_line(|c: int| header(c), rows)
}

/// Line `i` of the data part: row `i`'s seven cells.
pub open spec fn row_line(rows: Seq<DiscoverRow>, i: int) -> Seq<char> {
    table_line(|c: int| cell(rows[i], c), rows)
}

/// The lines of the table in order: the header line, the rule, then one
/// line per row.
pub open spec fn table_lines(rows: Seq<DiscoverRow>) -> Seq<Seq<char>> {
    seq![header_line(rows), rule_line(rows)] + Seq::new(rows.len(), |i: int| row_line(rows, i))
}

/// Lines written one after the other.
pub open spec fn concat_lines(ls: Seq<Seq<char>>) -> Seq<char>
    decreases ls.len(),
{
    if ls.len() == 0 {
        Seq::empty()
    } else {
        concat_lines(ls.drop_last()) + ls.last()
    }
}

proof fn lemma_data_lines_concat(rows: Seq<DiscoverRow>, k: int)
    requires
        0 <= k <= rows.len(),
    ensures
        data_lines(rows, k) == concat_lines(Seq::new(k as nat, |i: int| row_line(rows, i))),
    decreases k,
{
    let ls = Seq::new(k as nat, |i: int| row_line(rows, i));
    if k > 0 {
        lemma_data_lines_concat(rows, k - 1);
        assert(ls.drop_last() =~= Seq::new((k - 1) as nat, |i: int| row_line(rows, i)));
    }
}

proof fn lemma_concat_prefix(a: Seq<Seq<char>>, b: Seq<Seq<char>>)
    ensures
        concat_lines(a + b) == concat_lines(a) + concat_lines(b),
    decreases b.len(),
{
    if b.len() == 0 {
        assert(a + b =~= a);
    } else {
        lemma_concat_prefix(a, b.drop_last());
        assert((a + b).drop_last() =~= a + b.drop_last());
    }
}

/// The discover table, for at least one row: the header line naming the
/// seven columns, the rule line, then one line per row in the order of
/// the rows, each holding that row's cells (node id as `0xNN`, protocol,
/// firmware version or its error or `—`, …); nothing else.
pub proof fn lemma_discover_table(rows: Seq<DiscoverRow>)
    requires
        rows.len() > 0,
    ensures
        human_text(rows) == concat_lines(table_lines(rows)),
        table_lines(rows).len() == rows.len() + 2,
        forall|i: int| 0 <= i < rows.len() ==> #[trigger] table_lines(rows)[i + 2] == row_line(rows, i),
        forall|i: int|
            0 <= i < table_lines(rows).len() ==> #[trigger] table_lines(rows)[i].len() > 0 && table_lines(rows)[i].last()
                == '\n',
{
    reveal_strlit("\n");
    let n = rows.len() as int;
    let head = seq![header_line(rows), rule_line(rows)];
    let body = Seq::new(rows.len(), |i: int| row_line(rows, i));
    lemma_data_lines_concat(rows, n);
    lemma_concat_prefix(head, body);
    let h1 = head.drop_last();
    assert(h1 =~= seq![header_line(rows)]);
    assert(h1.drop_last() =~= Seq::<Seq<char>>::empty());
    assert(concat_lines(h1) == concat_lines(h1.drop_last()) + h1.last());
    assert(concat_lines(h1) =~= header_line(rows));
    assert(concat_lines(head) == concat_lines(h1) + head.last());
}

fn cell_text(r: &DiscoverRow, k: u8) -> (s: String)
    requires
        k < 7,
    ensures
        s@ == cell(*r, k as int),
{
    if k == 0 {
        let mut s = String::from_str("0x");
        push_hex_upper(&mut s, r.node_id as u64, 2);
        s
    } else if k == 1 {
        let mut s = String::new();
        push_dec(&mut s, r.proto_major as u64);
        s.append(".");
        push_dec(&mut s, r.proto_minor as u64);
        s
    } else if k == 2 {
        dash_or(&r.fw_version, &r.fw_error)
    } else if k == 3 {
        dash_or(&r.git_hash, &None)
    } else if k == 4 {
        dash_or(&r.product, &None)
    } else if k == 5 {
        match r.wrp_protected {
            Some(true) => String::from_str("✓"),
            Some(false) => String::from_str("✗"),
            None => String::from_str("—"),
        }
    } else {
        dash_or(&r.reset_cause, &r.health_error)
    }
}

fn dash_or(a: &Option<String>, b: &Option<String>) -> (s: String)
    ensures
        s@ == or_dash(*a, *b),
{
    match a {
        Some(x) => String::from_str(x.as_str()),
        None => match b {
            Some(y) => String::from_str(y.as_str()),
            None => String::from_str("—"),
        },
    }
}

fn header_text(k: u8) -> (s: &'static str)
    ensures
        s@ == header(k as int),
{
    if k == 0 {
        "Node"
    } else if k == 1 {
        "Proto"
    } else if k == 2 {
        "FW Version"
    } else if k == 3 {
        "Git Hash"
    } else if k == 4 {
        "Product"
    } else if k == 5 {
        "WRP"
    } else {
        "Reset Cause"
    }
}

fn column_texts(rows: &[DiscoverRow], k: u8) -> (v: Vec<String>)
    requires
        k < 7,
    ensures
        views(v@) == column(rows@, k as int),
{
    let mut v: Vec<String> = Vec::new();
    let mut i: usize = 0;
    while i < rows.len()
        invariant
            i <= rows@.len(),
            k < 7,
            views(v@) == column(rows@, k as int).take(i as int),
        decreases rows@.len() - i,
    {
        let ghost before = v@;
        let t = cell_text(&rows[i], k);
        v.push(t);
        proof {
            assert(column(rows@, k as int)[i as int] == cell(rows@[i as int], k as int));
            assert(views(v@) =~= views(before).push(t@));
            assert(views(v@) =~= column(rows@, k as int).take(i + 1));
        }
        i = i + 1;
    }
    proof {
        assert(column(rows@, k as int).take(rows@.len() as int) =~= column(rows@, k as int));
    }
    v
}

fn push_rule(out: &mut String, n: usize)
    ensures
        final(out)@ == old(out)@ + rule(n as nat),
{
    proof {
        reveal_strlit("─");
    }
    let mut i: usize = 0;
    while i < n
        invariant
            i <= n,
            out@ == old(out)@ + rule(i as nat),
        decreases n - i,
    {
        proof {
            reveal_strlit("─");
        }
        out.append("─");
        i = i + 1;
        assert(out@ =~= old(out)@ + rule(i as nat));
    }
}

/// Render the discover report: the hint when nobody replied, else a
/// table with one column per field, each as wide as its widest cell.
pub fn human_report(rows: &[DiscoverRow]) -> (s: String)
    ensures
        s@ == human_text(rows@),
{
    if rows.len() == 0 {
        return String::from_str(
            "No bootloaders replied to CMD_DISCOVER within the window.\nHints:\n  * Check that the adapter is up (`can-flasher adapters`).\n  * Confirm the bitrate matches the bus (`--bitrate 500000` is the default).\n  * Try a longer timeout (`--timeout-ms 2000`).\n  * Verify the device has power and is in bootloader mode.\n",
        );
    }
    let mut cols: Vec<Vec<String>> = Vec::new();
    let mut widths: Vec<usize> = Vec::new();
    let mut k: u8 = 0;
    while k < 7
        invariant
            k <= 7,
            cols@.len() == k,
            widths@.len() == k,
            forall|j: int| 0 <= j < k ==> views(#[trigger] cols@[j]@) == column(rows@, j),
            forall|j: int| 0 <= j < k ==> #[trigger] widths@[j] == col_width(rows@, j),
        decreases 7 - k,
    {
        let col = column_texts(rows, k);
        let w = max_width(header_text(k), col.as_slice());
        cols.push(col);
        widths.push(w);
        k = k + 1;
    }
    let mut s = String::new();
    push_cells_line(&mut s, rows, &widths, None);
    let ghost after_header = s@;
    let mut k: u8 = 0;
    while k < 7
        invariant
            k <= 7,
            widths@.len() == 7,
            forall|j: int| 0 <= j < 7 ==> #[trigger] widths@[j] == col_width(rows@, j),
            s@ == after_header + joined(|j: int| rule(col_width(rows@, j)), k as int),
        decreases 7 - k,
    {
        proof {
            reveal_strlit("  ");
        }
        let ghost before = s@;
        if k > 0 {
            s.append("  ");
        }
        push_rule(&mut s, widths[k as usize]);
        proof {
            assert(s@ =~= after_header + joined(|j: int| rule(col_width(rows@, j)), k + 1));
        }
        k = k + 1;
    }
    s.append("\n");
    proof {
        assert(s@ =~= table_line(|c: int| header(c), rows@) + rule_line(rows@));
    }
    let ghost before_data = s@;
    let mut i: usize = 0;
    while i < rows.len()
        invariant
            i <= rows@.len(),
            widths@.len() == 7,
            forall|j: int| 0 <= j < 7 ==> #[trigger] widths@[j] == col_width(rows@, j),
            s@ == before_data + data_lines(rows@, i as int),
        decreases rows@.len() - i,
    {
        push_cells_line(&mut s, rows, &widths, Some(i));
        proof {
            assert(s@ =~= before_data + data_lines(rows@, i + 1));
        }
        i = i + 1;
    }
    s
}

/// Append one table line: the headers (`None`) or row `i`'s cells, each
/// left-aligned in its column's width.
fn push_cells_line(s: &mut String, rows: &[DiscoverRow], widths: &Vec<usize>, row: Option<usize>)
    requires
        widths@.len() == 7,
        forall|j: int| 0 <= j < 7 ==> #[trigger] widths@[j] == col_width(rows@, j),
        row matches Some(i) ==> i < rows@.len(),
    ensures
        row is None ==> final(s)@ == old(s)@ + table_line(|c: int| header(c), rows@),
        row matches Some(i) ==> final(s)@ == old(s)@ + table_line(|c: int| cell(rows@[i as int], c), rows@),
{
    let ghost f: spec_fn(int) -> Seq<char> = match row {
        None => |c: int| header(c),
        Some(i) => |c: int| cell(rows@[i as int], c),
    };
    let ghost start = s@;
    let mut k: u8 = 0;
    while k < 7
        invariant
            k <= 7,
            widths@.len() == 7,
            forall|j: int| 0 <= j < 7 ==> #[trigger] widths@[j] == col_width(rows@, j),
            row matches Some(i) ==> i < rows@.len(),
            f == (match row {
                None => |c: int| header(c),
                Some(i) => |c: int| cell(rows@[i as int], c),
            }),
            s@ == start + joined(|j: int| pad_right(f(j), col_width(rows@, j)), k as int),
        decreases 7 - k,
    {
        proof {
            reveal_strlit("  ");
        }
        if k > 0 {
            s.append("  ");
        }
        let text: String = match row {
            None => String::from_str(header_text(k)),
            Some(i) => cell_text(&rows[i], k),
        };
        crate::text::push_left_aligned(s, text.as_str(), widths[k as usize] as u64);
        proof {
            assert(text@ == f(k as int));
            assert(s@ =~= start + joined(|j: int| pad_right(f(j), col_width(rows@, j)), k + 1));
        }
        k = k + 1;
    }
    s.append("\n");
    proof {
        assert(s@ =~= start + joined(|j: int| pad_right(f(j), col_width(rows@, j)), 7) + "\n"@);
    }
}

} // verus!
