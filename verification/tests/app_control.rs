#![allow(unused_imports)]
use can_flasher::app_control::{reboot_to_bl_payload, REBOOT_TO_BL_PAYLOAD_AMS, REBOOT_TO_BL_PAYLOAD_ECU};

#[test]
fn reboot_payload_is_per_node() {
        assert_eq!(reboot_to_bl_payload(0x1), [0xB0, 0x07, 0xAD, 0x12]);
        assert_eq!(reboot_to_bl_payload(0x2), [0xB0, 0x07, 0xAD, 0x11]);
        assert_ne!(reboot_to_bl_payload(0x1), reboot_to_bl_payload(0x2));
        // Unknown nodes fall back to the historical payload.
        assert_eq!(reboot_to_bl_payload(0x3), REBOOT_TO_BL_PAYLOAD_AMS);
    }
