use can_flasher::firmware::loader::{compose_image, detect_format, extract_fw_info, image_from_elf_segments, load_bin, load_ihex, Format, LoaderError};
use can_flasher::firmware::{BL_APP_BASE, FW_INFO_OFFSET};

fn sample_ihex_at_app_base() -> Vec<u8> {
    let mut s = String::new();
    s.push_str(":020000040802F0\n");
    s.push_str(":04000000AABBCCDDEE\n");
    s.push_str(":00000001FF\n");
    s.into_bytes()
}

#[test]
fn detect_elf_by_magic() {
        let bytes = b"\x7FELFsome more bytes";
        let format = detect_format(("/tmp/unknown"), bytes).unwrap();
        assert_eq!(format, Format::Elf);
    }

#[test]
fn detect_intel_hex_by_leading_colon() {
        let bytes = b":020000040800F2\n:10000000...\n";
        let format = detect_format(("/tmp/unknown"), bytes).unwrap();
        assert_eq!(format, Format::IntelHex);
    }

#[test]
fn detect_intel_hex_tolerates_leading_whitespace() {
        // Some editors add a UTF-8 BOM or a stray newline; accept
        // anything where the first non-whitespace byte is `:`.
        let bytes = b"\r\n:020000040800F2\n";
        let format = detect_format(("/tmp/unknown"), bytes).unwrap();
        assert_eq!(format, Format::IntelHex);
    }

#[test]
fn detect_binary_via_extension() {
        let bytes = b"\x00\x01\x02";
        let format = detect_format(("/tmp/raw.bin"), bytes).unwrap();
        assert_eq!(format, Format::Binary);
    }

#[test]
fn detect_elf_via_extension_when_magic_absent() {
        let bytes = b"partial object file";
        let format = detect_format(("/tmp/corrupt.elf"), bytes).unwrap();
        assert_eq!(format, Format::Elf);
    }

#[test]
fn detect_unknown_returns_error() {
        let bytes = b"random garbage";
        let err = detect_format(("/tmp/foo.txt"), bytes).unwrap_err();
        assert!(matches!(err, LoaderError::UnknownFormat));
    }

#[test]
fn load_ihex_parses_basic_data() {
        let bytes = sample_ihex_at_app_base();
        let img = load_ihex(&bytes).unwrap();
        assert_eq!(img.base_addr, 0x0802_0000);
        assert_eq!(img.data, vec![0xAA, 0xBB, 0xCC, 0xDD]);
        assert!(img.fw_info.is_none());
    }

#[test]
fn load_ihex_rejects_non_utf8() {
        // Invalid UTF-8 (0xFF mid-record).
        let bytes = vec![0xFF, 0xFE];
        let err = load_ihex(&bytes).unwrap_err();
        assert!(matches!(err, LoaderError::IntelHex(_)));
    }

#[test]
fn load_bin_wraps_bytes_at_address() {
        let bytes = vec![0x01, 0x02, 0x03];
        let img = load_bin(&bytes, 0x0802_0000);
        assert_eq!(img.base_addr, 0x0802_0000);
        assert_eq!(img.data, bytes);
        assert!(img.fw_info.is_none());
    }

#[test]
fn compose_pads_gaps_with_ff() {
        // Two segments with a gap in the middle.
        let segs = vec![(0x1000u32, vec![0xAA, 0xBB]), (0x1008u32, vec![0xCC, 0xDD])];
        let img = compose_image(segs).unwrap();
        assert_eq!(img.base_addr, 0x1000);
        assert_eq!(img.size(), 10);
        assert_eq!(
            img.data,
            vec![0xAA, 0xBB, 0xFF, 0xFF, 0xFF, 0xFF, 0xFF, 0xFF, 0xCC, 0xDD]
        );
    }

#[test]
fn compose_without_segments_errors() {
        let err = compose_image(vec![]).unwrap_err();
        assert!(matches!(err, LoaderError::NoSegments));
    }

#[test]
fn extract_fw_info_returns_none_when_image_doesnt_cover_offset() {
        let data = vec![0xFF; 0x100]; // too short to reach 0x400
        let out = extract_fw_info(BL_APP_BASE, &data);
        assert!(out.is_none());
    }

fn sample_fw_info_bytes() -> Vec<u8> {
    let mut buf = Vec::with_capacity(64);
    // Record magic: the decoder does not check it, any word will do.
    buf.extend_from_slice(&0x4F46_4E49u32.to_le_bytes());
    buf.extend_from_slice(&0x0001_0000u32.to_le_bytes()); // record_version = 1.0
    buf.extend_from_slice(&1u32.to_le_bytes()); // major
    buf.extend_from_slice(&4u32.to_le_bytes()); // minor
    buf.extend_from_slice(&2u32.to_le_bytes()); // patch
    buf.extend_from_slice(&0x0000_0450u32.to_le_bytes()); // mcu_id
    buf.extend_from_slice(&[0xAA; 8]); // git_hash
    buf.extend_from_slice(&0u64.to_le_bytes()); // build_timestamp
    let mut name = [0u8; 16];
    name[..5].copy_from_slice(b"TEST\0");
    buf.extend_from_slice(&name);
    buf.extend_from_slice(&0u64.to_le_bytes()); // reserved
    assert_eq!(buf.len(), can_flasher::protocol::FirmwareInfo::SIZE);
    buf
}

#[test]
fn extract_fw_info_finds_record_at_fixed_offset() {
    let mut data = vec![0xFFu8; can_flasher::firmware::FW_INFO_OFFSET as usize];
    data.extend(sample_fw_info_bytes());
    data.extend(vec![0u8; 64]);
    let img = can_flasher::firmware::Image {
        base_addr: BL_APP_BASE,
        data: data.clone(),
        fw_info: extract_fw_info(BL_APP_BASE, &data),
    };
    let fw = img.fw_info.expect("fw_info should parse");
    assert_eq!(fw.version(), (1, 4, 2));
}

#[test]
fn detect_format_tolerates_byte_order_mark() {
    let bytes = [&[0xEFu8, 0xBB, 0xBF][..], &b":00000001FF"[..]].concat();
    assert_eq!(detect_format("/tmp/unknown", &bytes).unwrap(), Format::IntelHex);
    let bytes = [&[0xEFu8, 0xBB, 0xBF][..], &b" \r\n:00000001FF"[..]].concat();
    assert_eq!(detect_format("/tmp/unknown", &bytes).unwrap(), Format::IntelHex);
    let bytes = [0xEFu8, 0xBB, 0xBF, 0x00];
    assert!(matches!(detect_format("/tmp/unknown", &bytes), Err(LoaderError::UnknownFormat)));
}

#[test]
fn detect_format_falls_back_to_the_extension() {
    let bytes = [0u8, 1, 2, 3];
    assert_eq!(detect_format("fw.bin", &bytes).unwrap(), Format::Binary);
    assert_eq!(detect_format("fw.HEX", &bytes).unwrap(), Format::IntelHex);
    assert_eq!(detect_format("build/out/fw.elf", &bytes).unwrap(), Format::Elf);
    assert!(matches!(detect_format("build.d/fw", &bytes), Err(LoaderError::UnknownFormat)));
    assert!(matches!(detect_format(".bin", &bytes), Err(LoaderError::UnknownFormat)));
}

#[test]
fn compose_places_each_segment_at_its_address() {
    let img = compose_image(vec![(0x1008, vec![0xCC, 0xDD]), (0x1000, vec![0xAA, 0xBB])]).unwrap();
    assert_eq!(img.base_addr, 0x1000);
    assert_eq!(img.data, vec![0xAA, 0xBB, 0xFF, 0xFF, 0xFF, 0xFF, 0xFF, 0xFF, 0xCC, 0xDD]);
}

#[test]
fn elf_segments_are_checked_in_order() {
    let segs = vec![(0x1_0000_0000u64, Ok(vec![1u8])), (0u64, Err(String::from("bad segment")))];
    assert!(matches!(image_from_elf_segments(segs), Err(LoaderError::AddressOverflow { addr: 0x1_0000_0000 })));
    let segs = vec![(0u64, Err(String::from("bad segment"))), (0x1_0000_0000u64, Ok(vec![1u8]))];
    match image_from_elf_segments(segs) {
        Err(LoaderError::Elf(m)) => assert_eq!(m, "bad segment"),
        other => panic!("unexpected {:?}", other),
    }
    let segs = vec![(0x1000u64, Ok(vec![])), (0x2000u64, Ok(vec![7u8]))];
    let img = image_from_elf_segments(segs).unwrap();
    assert_eq!(img.base_addr, 0x2000);
    assert_eq!(img.data, vec![7]);
}

#[test]
fn ihex_rejects_non_utf8_with_the_decoder_message() {
    let bytes = [b':', 0xFF, 0xFE];
    let expected = format!("input is not valid UTF-8: {}", std::str::from_utf8(&bytes).unwrap_err());
    match load_ihex(&bytes) {
        Err(LoaderError::IntelHex(m)) => assert_eq!(m, expected),
        other => panic!("unexpected {:?}", other),
    }
}

#[test]
fn detect_format_reads_the_extension_of_any_path() {
    let bytes = [0u8, 1, 2, 3];
    let expected = match std::path::Path::new("C:\\fw\\app.ELF").extension().and_then(|e| e.to_str()) {
        Some(e) if e.eq_ignore_ascii_case("elf") => Format::Elf,
        _ => panic!("no extension"),
    };
    assert_eq!(detect_format("C:\\fw\\app.ELF", &bytes).unwrap(), expected);
}
