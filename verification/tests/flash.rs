#![allow(unused_imports)]
use can_flasher::firmware::Image;
use can_flasher::flash::engine::{DeviceReply, FlashAction, FlashCommand};
use can_flasher::flash::{Elapsed, FlashManager};
use can_flasher::cli::ExitCodeHint;
use can_flasher::flash::{pad_to_flashword, sector_base_addr, sector_of, FlashConfig, FlashError, DEFAULT_WRITE_CHUNK, FLASHWORD_SIZE};
use can_flasher::protocol::NackCode;
use can_flasher::session::SessionError;

#[test]
fn flash_config_defaults_match_requirements() {
        let cfg = FlashConfig::default();
        assert!(cfg.diff);
        assert!(!cfg.dry_run);
        assert!(cfg.verify_after);
        assert!(cfg.final_commit);
        assert_eq!(cfg.write_chunk_size, DEFAULT_WRITE_CHUNK);
    }

#[test]
fn sector_base_addr_maps_app_sectors() {
        assert_eq!(sector_base_addr(1), 0x0802_0000);
        assert_eq!(sector_base_addr(2), 0x0804_0000);
        assert_eq!(sector_base_addr(6), 0x080C_0000);
    }

#[test]
fn pad_to_flashword_is_noop_on_aligned_input() {
        let aligned = vec![0xAAu8; 32];
        let padded = pad_to_flashword(&aligned);
        assert_eq!(padded.len(), 32);
        assert!(matches!(padded, std::borrow::Cow::Borrowed(_)));
    }

#[test]
fn pad_to_flashword_pads_short_tail_with_ff() {
        let tail = vec![0xAAu8; 33]; // 33 % 32 == 1 → pad 31 bytes
        let padded = pad_to_flashword(&tail);
        assert_eq!(padded.len(), 64);
        assert_eq!(&padded[..33], &[0xAA; 33]);
        assert!(padded[33..].iter().all(|&b| b == 0xFF));
    }

#[test]
fn pad_to_flashword_pads_single_byte_input() {
        let one = [0xAAu8];
        let padded = pad_to_flashword(&one);
        assert_eq!(padded.len(), FLASHWORD_SIZE as usize);
        assert_eq!(padded[0], 0xAA);
        assert!(padded[1..].iter().all(|&b| b == 0xFF));
    }

#[test]
fn flash_error_exit_hints_match_requirements_table() {
        // Protection violation on NACK(PROTECTED_ADDR) → exit 3.
        let protected = FlashError::Nack {
            rejected_opcode: 0x00 /* any opcode: the hint follows the NACK code */,
            code: NackCode::ProtectedAddr,
        };
        assert_eq!(
            protected.exit_code_hint(),
            ExitCodeHint::ProtectionViolation
        );

        // Final verify mismatch → exit 2.
        let mismatch = FlashError::FinalVerifyMismatch {
            expected_crc: 0xDEAD_BEEF,
            expected_size: 1024,
            expected_version: 0x0001_0000,
        };
        assert_eq!(mismatch.exit_code_hint(), ExitCodeHint::VerifyMismatch);

        // Timeout / RxClosed → device not found.
        let timeout = FlashError::Session(SessionError::CommandTimeout(1));
        assert_eq!(timeout.exit_code_hint(), ExitCodeHint::DeviceNotFound);

        // Everything else → generic FlashError (exit 1).
        let hw = FlashError::Nack {
            rejected_opcode: 0x00 /* any opcode: the hint follows the NACK code */,
            code: NackCode::FlashHw,
        };
        assert_eq!(hw.exit_code_hint(), ExitCodeHint::FlashError);
    }

#[test]
fn sector_of_delegates_to_firmware_helper() {
        assert_eq!(sector_of(0x0802_0000), Some(1));
        assert_eq!(sector_of(0x0000_0000), None);
    }

#[test]
fn default_write_chunk_is_256_bytes() {
    assert_eq!(DEFAULT_WRITE_CHUNK, 256);
    assert_eq!(FlashConfig::default().write_chunk_size, 256);
}

#[test]
fn image_outside_flash_is_refused_at_once() {
    let image = Image { base_addr: 0x0810_0000, data: vec![1, 2, 3], fw_info: None };
    let mgr = FlashManager { image: &image, config: FlashConfig::default() };
    let (_run, step) = mgr.start(Elapsed { secs: 0, nanos: 0 });
    assert!(step.events.is_empty());
    assert!(matches!(step.action, FlashAction::Finished(Err(FlashError::InvalidImage { .. }))));
}

#[test]
fn run_against_an_acknowledging_device_finishes_ok() {

    let image = Image { base_addr: 0x0802_0000, data: vec![0xAB; 1000], fw_info: None };
    let config = FlashConfig { diff: false, dry_run: false, verify_after: false, write_chunk_size: 256, final_commit: true };
    let mgr = FlashManager { image: &image, config };
    let (mut run, mut step) = mgr.start(Elapsed { secs: 1, nanos: 0 });
    let mut erases = 0;
    let mut writes = 0;
    let mut next_addr = 0x0802_0000u32;
    let mut commits = 0;
    let report = loop {
        match step.action {
            FlashAction::Send(cmd) => {
                match &cmd {
                    FlashCommand::Erase { sector, addr, len } => {
                        assert_eq!((*sector, *addr, *len), (1, 0x0802_0000, 0x2_0000));
                        erases += 1;
                    }
                    FlashCommand::Write { addr, data, .. } => {
                        assert_eq!(*addr, next_addr);
                        assert_eq!(data.len() % 32, 0);
                        next_addr += data.len() as u32;
                        writes += 1;
                    }
                    FlashCommand::Verify { size, .. } => {
                        assert_eq!(*size, 1000);
                        commits += 1;
                    }
                    FlashCommand::ReadCrc { .. } => panic!("no CRC read without diff or verify"),
                }
                step = run.resume(DeviceReply::Ack { opcode_matches: true, payload: vec![], kind: "ACK" }, Elapsed { secs: 1, nanos: 0 });
            }
            FlashAction::Finished(r) => break r.unwrap(),
        }
    };
    assert_eq!(erases, 1);
    assert_eq!(writes, 0x2_0000 / 256);
    assert_eq!(next_addr, 0x0804_0000);
    assert_eq!(commits, 1);
    assert!(report.sectors_erased.is_empty());
    assert_eq!(report.sectors_written, vec![1]);
    assert!(report.sectors_skipped.is_empty());
}

#[test]
fn unchanged_image_is_skipped_entirely() {
    let image = Image { base_addr: 0x0802_0000, data: vec![0x5A; 0x2_0000 + 100], fw_info: None };
    let config = FlashConfig { diff: true, dry_run: false, verify_after: true, write_chunk_size: 256, final_commit: true };
    let mgr = FlashManager { image: &image, config };
    let (mut run, mut step) = mgr.start(Elapsed { secs: 0, nanos: 0 });
    let mut reads = Vec::new();
    let mut commits = 0;
    let report = loop {
        match step.action {
            FlashAction::Send(FlashCommand::ReadCrc { sector, addr, len }) => {
                assert_eq!(addr, 0x0802_0000 + (sector as u32 - 1) * 0x2_0000);
                assert_eq!(len, 0x2_0000);
                reads.push(sector);
                let crc = mgr.expected_sector_crc(sector);
                step = run.resume(DeviceReply::Ack { opcode_matches: true, payload: crc.to_le_bytes().to_vec(), kind: "ACK" }, Elapsed { secs: 0, nanos: 0 });
            }
            FlashAction::Send(FlashCommand::Verify { .. }) => {
                commits += 1;
                step = run.resume(DeviceReply::Ack { opcode_matches: true, payload: vec![], kind: "ACK" }, Elapsed { secs: 0, nanos: 0 });
            }
            FlashAction::Send(other) => panic!("unexpected {:?}", other),
            FlashAction::Finished(r) => break r.unwrap(),
        }
    };
    assert_eq!(reads, vec![1, 2]);
    assert_eq!(commits, 1);
    assert!(report.sectors_erased.is_empty());
    assert!(report.sectors_written.is_empty());
    assert_eq!(report.sectors_skipped, vec![1, 2]);
}
