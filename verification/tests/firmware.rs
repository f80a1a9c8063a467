#![allow(unused_imports)]
use can_flasher::firmware::{crc32, pack_version, sector_of_addr, Image, ImageError, BL_APP_BASE, BL_APP_END, BL_APP_MAX_SIZE, BL_FLASH_END, BL_SECTOR_SIZE, BL_FLASH_BASE, FW_INFO_OFFSET, FW_INFO_ADDR};

#[test]
fn pack_version_lays_out_bytes() {
        assert_eq!(pack_version(1, 4, 2), 0x0001_0402);
        assert_eq!(pack_version(0, 0, 0), 0);
    }

#[test]
fn pack_version_clamps_to_byte() {
        assert_eq!(pack_version(256, 0, 0), 0x00FF_0000);
        assert_eq!(pack_version(999, 999, 999), 0x00FF_FFFF);
    }

#[test]
fn crc32_matches_reference_empty_buffer() {
        // CRC-32/ISO-HDLC of the empty byte string is 0.
        assert_eq!(crc32(&[]), 0);
    }

#[test]
fn crc32_matches_reference_ascii() {
        // "123456789" — the standard CRC test vector.
        assert_eq!(crc32(b"123456789"), 0xCBF4_3926);
    }

#[test]
fn image_size_and_end_addr_consistent() {
        let img = Image {
            base_addr: 0x0802_0000,
            data: vec![0xAA; 1024],
            fw_info: None,
        };
        assert_eq!(img.size(), 1024);
        assert_eq!(img.end_addr(), 0x0802_0400);
    }

#[test]
fn validate_rejects_base_below_app_base() {
        let img = Image {
            base_addr: 0x0800_0000,
            data: vec![0; 16],
            fw_info: None,
        };
        assert!(matches!(
            img.validate_fits_app_region(),
            Err(ImageError::BelowAppBase { .. })
        ));
    }

#[test]
fn validate_rejects_end_above_app_end() {
        let img = Image {
            base_addr: 0x080D_FFF0,
            data: vec![0; 32], // end at 0x080E_0010, past BL_APP_END + 1
            fw_info: None,
        };
        assert!(matches!(
            img.validate_fits_app_region(),
            Err(ImageError::AboveAppEnd { .. })
        ));
    }

#[test]
fn validate_accepts_maximum_size_image() {
        let img = Image {
            base_addr: BL_APP_BASE,
            data: vec![0; BL_APP_MAX_SIZE as usize],
            fw_info: None,
        };
        assert!(img.validate_fits_app_region().is_ok());
    }

#[test]
fn packed_version_returns_zero_without_fw_info() {
        let img = Image {
            base_addr: BL_APP_BASE,
            data: vec![0; 16],
            fw_info: None,
        };
        assert_eq!(img.packed_version(), 0);
    }

#[test]
fn sector_of_addr_rejects_below_flash() {
        assert_eq!(sector_of_addr(0x0000_0000), None);
        assert_eq!(sector_of_addr(0x07FF_FFFF), None);
    }

#[test]
fn sector_of_addr_rejects_above_flash_end() {
        assert_eq!(sector_of_addr(0x0810_0000), None);
        assert_eq!(sector_of_addr(0xFFFF_FFFF), None);
    }

#[test]
fn sector_of_addr_maps_each_sector_boundary() {
        // Sector 0: 0x08000000..=0x0801FFFF
        assert_eq!(sector_of_addr(0x0800_0000), Some(0));
        assert_eq!(sector_of_addr(0x0801_FFFF), Some(0));
        // Sector 1: 0x08020000..=0x0803FFFF
        assert_eq!(sector_of_addr(0x0802_0000), Some(1));
        assert_eq!(sector_of_addr(0x0803_FFFF), Some(1));
        // Sector 6: 0x080C0000..=0x080DFFFF (last of app region)
        assert_eq!(sector_of_addr(0x080C_0000), Some(6));
        assert_eq!(sector_of_addr(BL_APP_END), Some(6));
        // Sector 7: 0x080E0000..=0x080FFFFF (metadata)
        assert_eq!(sector_of_addr(0x080E_0000), Some(7));
        assert_eq!(sector_of_addr(BL_FLASH_END), Some(7));
    }

#[test]
fn sector_range_single_sector_image() {
        let img = Image {
            base_addr: BL_APP_BASE,
            data: vec![0; 1024],
            fw_info: None,
        };
        assert_eq!(img.sector_range(), Some(1..=1));
    }

#[test]
fn sector_range_spans_multiple_sectors() {
        // Base at sector 1, end at sector 3 (partway in).
        let img = Image {
            base_addr: BL_APP_BASE,
            data: vec![0; (BL_SECTOR_SIZE * 2 + 1024) as usize],
            fw_info: None,
        };
        assert_eq!(img.sector_range(), Some(1..=3));
    }

#[test]
fn sector_range_exact_boundary_does_not_overrun() {
        // Image ends exactly at the sector 2 boundary — sector_range
        // must return 1..=1, not 1..=2.
        let img = Image {
            base_addr: BL_APP_BASE,
            data: vec![0; BL_SECTOR_SIZE as usize],
            fw_info: None,
        };
        assert_eq!(img.sector_range(), Some(1..=1));
    }

#[test]
fn sector_range_full_app_region() {
        let img = Image {
            base_addr: BL_APP_BASE,
            data: vec![0; BL_APP_MAX_SIZE as usize],
            fw_info: None,
        };
        assert_eq!(img.sector_range(), Some(1..=6));
    }

#[test]
fn sector_range_empty_image_returns_none() {
        let img = Image {
            base_addr: BL_APP_BASE,
            data: Vec::new(),
            fw_info: None,
        };
        assert_eq!(img.sector_range(), None);
    }
