use can_flasher::cli::flash_profile::{profile_summary, FlashEventKind, ProfileLog};
use can_flasher::flash::{FlashEvent, SectorRole};

const MS: u64 = 1_000_000;

#[test]
fn empty_timeline_prints_nothing() {
    assert!(profile_summary(&ProfileLog::new()).is_empty());
}

#[test]
fn summary_phases_and_chunk_stats() {
    let mut log = ProfileLog::new();
    log.record(5 * MS, &FlashEvent::PlanningSector { sector: 2, role: SectorRole::Write });
    log.record(20 * MS, &FlashEvent::Erased { sector: 2 });
    log.record(30 * MS, &FlashEvent::ChunkWritten { sector: 2, bytes: 128, total: 384 });
    log.record(33 * MS, &FlashEvent::ChunkWritten { sector: 2, bytes: 256, total: 384 });
    log.record(40 * MS, &FlashEvent::ChunkWritten { sector: 2, bytes: 384, total: 384 });
    log.record(50 * MS, &FlashEvent::SectorVerified { sector: 2, crc: 0 });
    log.record(51 * MS, &FlashEvent::Committing);
    assert_eq!(log.timeline.len(), 7);
    assert_eq!(log.timeline[2].1, FlashEventKind::ChunkWritten { sector: 2, bytes: 128, total: 384 });
    assert_eq!(log.gaps, vec![(2, 3), (2, 7)]);
    let lines = profile_summary(&log);
    let want = vec![
        String::new(),
        "─────────────── profile ───────────────".to_string(),
        format!("total flash engine:   {:>8} ms", 51),
        format!("  {:>20} {:>8} ms", "startup", 5),
        format!("  {:>20} {:>8} ms", "plan/diff", 15),
        format!("  {:>20} {:>8} ms", "erase", 20),
        format!("  {:>20} {:>8} ms", "write (sector complete)", 10),
        format!("  {:>20} {:>8} ms", "verify", 1),
        String::new(),
        "per-chunk write interval (ms) — by sector:".to_string(),
        "  sector  chunks     min     p50     p95     max".to_string(),
        format!("  0x{:02X}      {:>6}  {:>6}  {:>6}  {:>6}  {:>6}", 2, 2, 3, 7, 7, 7),
        "────────────────────────────────────────".to_string(),
    ];
    assert_eq!(lines, want);
}

#[test]
fn chunk_gaps_are_per_sector_and_sorted() {
    let mut log = ProfileLog::new();
    let w = |s: u8| FlashEvent::ChunkWritten { sector: s, bytes: 1, total: 9 };
    log.record(0, &w(3));
    log.record(9 * MS, &w(3));
    log.record(10 * MS, &w(1));
    log.record(12 * MS, &w(3));
    log.record(13 * MS, &w(1));
    log.record(14 * MS + 999_999, &w(3));
    let lines = profile_summary(&log);
    let rows: Vec<&String> = lines.iter().filter(|l| l.starts_with("  0x")).collect();
    assert_eq!(rows.len(), 2);
    assert_eq!(*rows[0], format!("  0x{:02X}      {:>6}  {:>6}  {:>6}  {:>6}  {:>6}", 1, 1, 3, 3, 3, 3));
    assert_eq!(*rows[1], format!("  0x{:02X}      {:>6}  {:>6}  {:>6}  {:>6}  {:>6}", 3, 3, 2, 3, 9, 9));
}
