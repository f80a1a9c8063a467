#![allow(unused_imports)]
use can_flasher::bootloader_fetch::{cache_segments, BootloaderFormat};

#[test]
fn asset_names_match_bl_release_layout() {
        // Pin the names the BL repo uses on its release page so a
        // rename on either side breaks loudly here rather than
        // silently fetching the wrong file at runtime.
        assert_eq!(BootloaderFormat::Elf.asset_name(), "CAN_BL.elf");
        assert_eq!(BootloaderFormat::Hex.asset_name(), "CAN_BL.hex");
        assert_eq!(BootloaderFormat::Bin.asset_name(), "CAN_BL.bin");
    }


#[test]
fn cache_dir_segments_under_tag() {
    let p = cache_segments("v1.2.0");
    let tail: Vec<_> = p.iter().rev().take(3).collect();
    assert_eq!(tail[0], "v1.2.0");
    assert_eq!(tail[1], "bootloaders");
    assert_eq!(tail[2], "can-flasher");
}
