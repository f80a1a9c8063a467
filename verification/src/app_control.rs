//! Application-level CAN conventions the host speaks to running firmware:
//! the reboot-to-bootloader trigger. The trigger id is shared; the 4-byte
//! payload selects which node reboots.
use vstd::prelude::*;

verus! {

/// 11-bit CAN id the applications listen on for the reboot trigger.
pub const REBOOT_TO_BL_ID: u16 = 0x002;

/// Reboot payload of the AMS (also the fallback for other nodes).
pub const REBOOT_TO_BL_PAYLOAD_AMS: [u8; 4] = [0xB0, 0x07, 0xAD, 0x11];

/// Reboot payload of the ECU.
pub const REBOOT_TO_BL_PAYLOAD_ECU: [u8; 4] = [0xB0, 0x07, 0xAD, 0x12];

/// Total window, in milliseconds, to poll a target into the bootloader
/// after the reboot trigger.
pub const DEFAULT_BL_ENTRY_WINDOW_MS: u64 = 8_000;

/// The reboot payload for a node: the ECU (node 1) has its own magic,
/// every other node gets the AMS one.
pub fn reboot_to_bl_payload(target_node: u8) -> (p: [u8; 4])
    ensures
        target_node == 1 ==> p@ == seq![0xB0u8, 0x07u8, 0xADu8, 0x12u8],
        target_node != 1 ==> p@ == seq![0xB0u8, 0x07u8, 0xADu8, 0x11u8],
{
    let p = if target_node == 1 { REBOOT_TO_BL_PAYLOAD_ECU } else { REBOOT_TO_BL_PAYLOAD_AMS };
    assert(p@ =~= if target_node == 1 { seq![0xB0u8, 0x07u8, 0xADu8, 0x12u8] } else { seq![0xB0u8, 0x07u8, 0xADu8, 0x11u8] });
    p
}

/// How the flash flow gets a target into the bootloader before CONNECT.
#[derive(Clone, Copy, Debug, PartialEq, Eq, Structural)]
pub enum BootloaderEntry {
    /// Never send the reboot trigger.
    Never,
    /// CONNECT first; send the trigger and retry once only on a timeout.
    Auto,
    /// Always send the trigger before CONNECT.
    Always,
}

impl Default for BootloaderEntry {
    /// `Auto`.
    fn default() -> (e: BootloaderEntry)
        ensures
            e == BootloaderEntry::Auto,
    {
        BootloaderEntry::Auto
    }
}

/// Whether to send the reboot trigger before the first CONNECT.
pub fn trigger_before_connect(entry: BootloaderEntry) -> (t: bool)
    ensures
        t == (entry == BootloaderEntry::Always),
{
    match entry {
        BootloaderEntry::Always => true,
        _ => false,
    }
}

/// Whether a CONNECT timeout is answered with the trigger and one retry.
pub fn retry_after_timeout(entry: BootloaderEntry) -> (t: bool)
    ensures
        t == (entry == BootloaderEntry::Auto),
{
    match entry {
        BootloaderEntry::Auto => true,
        _ => false,
    }
}

} // verus!
