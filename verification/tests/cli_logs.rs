use can_flasher::cli::logs::{
    check_pull_crc, check_pull_size, list_human, list_json, next_list_cursor, pull_percent,
    pull_progress_line, select_entries, stalled_message, LogEntry, PullBuffer, ReadStep,
};

fn entry(index: u16, name: &str, size: u32, mtime: u32) -> LogEntry {
    LogEntry { index, name: name.to_string(), size, mtime }
}

#[test]
fn listing_table_matches_the_cli_layout() {
    let v = vec![entry(1, "LOG0001.CSV", 1234, 99), entry(12, "B.CSV", 0, 1_000_000)];
    let mut want = format!("{:>5}  {:<12} {:>10}  {:>12}\n", "INDEX", "NAME", "SIZE", "MTIME(mono)");
    for e in &v {
        want.push_str(&format!("{:>5}  {:<12} {:>10}  {:>12}\n", e.index, e.name, e.size, e.mtime));
    }
    want.push_str("\n2 file(s). mtime is boot-relative (no RTC) — ordering only, not a date.\n");
    assert_eq!(list_human(&v), want);
    assert_eq!(list_human(&vec![]), "no log files on the card\n");
}

#[test]
fn listing_json() {
    let v = vec![entry(1, "A.CSV", 10, 5), entry(2, "B.CSV", 20, 6)];
    assert_eq!(
        list_json(&v),
        "[{\"index\":1,\"name\":\"A.CSV\",\"size\":10,\"mtimeMonotonic\":5},{\"index\":2,\"name\":\"B.CSV\",\"size\":20,\"mtimeMonotonic\":6}]\n"
    );
    assert_eq!(list_json(&vec![]), "[]\n");
}

#[test]
fn listing_cursor_must_advance() {
    assert_eq!(next_list_cursor(0, 5, true), Ok(None));
    assert_eq!(next_list_cursor(0, 5, false), Ok(Some(5)));
    assert_eq!(
        next_list_cursor(7, 7, false).unwrap_err(),
        "LOGFS_LIST cursor did not advance (stuck at 7) — aborting"
    );
}

#[test]
fn pull_selects_by_index() {
    let v = vec![entry(3, "A", 1, 1), entry(4, "B", 1, 1), entry(3, "C", 1, 1)];
    assert_eq!(select_entries(&v, None).unwrap(), vec![0, 1, 2]);
    assert_eq!(select_entries(&v, Some(3)).unwrap(), vec![0]);
    assert_eq!(select_entries(&v, Some(4)).unwrap(), vec![1]);
    assert_eq!(
        select_entries(&v, Some(9)).unwrap_err(),
        "no log with index 9 on the card (try `cf logs list`)"
    );
}

#[test]
fn pull_buffer_tracks_offset_and_steps() {
    let mut b = PullBuffer::new();
    assert_eq!(b.take_chunk(&[1, 2, 3], false), ReadStep::Continue);
    assert_eq!(b.take_chunk(&[], false), ReadStep::Stalled);
    assert_eq!(b.take_chunk(&[4], true), ReadStep::Done);
    assert_eq!(b.data, vec![1, 2, 3, 4]);
    assert_eq!(b.offset, 4);
    let mut full = PullBuffer { offset: u32::MAX - 1, data: vec![] };
    full.take_chunk(&[0; 5], false);
    assert_eq!(full.offset, u32::MAX);
    assert_eq!(stalled_message(4), "LOGFS_READ returned no data before EOF at offset 4");
}

#[test]
fn pull_progress_and_checks() {
    assert_eq!(pull_percent(50, 200), 25);
    assert_eq!(pull_percent(300, 200), 100);
    assert_eq!(pull_progress_line("LOG.CSV", 50, 200), "\r  LOG.CSV …  25% (50/200 B)");
    assert!(check_pull_size("X", 0, 17).is_ok());
    assert!(check_pull_size("X", 17, 17).is_ok());
    assert_eq!(
        check_pull_size("X", 17, 16).unwrap_err(),
        "size mismatch for X: OPEN said 17 B, transfer produced 16 B"
    );
    assert!(check_pull_crc("X", 5, 5).is_ok());
    assert_eq!(
        check_pull_crc("X", 0xDEADBEEF, 0x1).unwrap_err(),
        "CRC mismatch for X: node says 0xDEADBEEF, received bytes are 0x00000001"
    );
}

#[test]
fn unique_path_avoids_clobbering() {
    let first = can_flasher::cli::logs::unique_path("LOG0001.CSV", &[]);
    assert!(first.ends_with("LOG0001.CSV"));
    let second = can_flasher::cli::logs::unique_path("LOG0001.CSV", &[true]);
    assert!(second.ends_with("LOG0001.CSV.1"));
    assert_eq!(can_flasher::cli::logs::unique_path("A", &[true, true, false, true]), "A.2");
    assert_eq!(can_flasher::cli::logs::unique_path("A", &[true; 1000]), "A.1000");
}
