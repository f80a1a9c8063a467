//! Node-id provisioning from the desktop front-end: the request and the
//! mapping from a board role to the node id written to its NVM.
use vstd::prelude::*;
use crate::cli::InterfaceType;
use crate::parse::{debug_quoted, str_debug, trim, trim_spec};

verus! {

/// NVM key of the bootloader's node id.
pub const BL_NVM_KEY_NODE_ID: u16 = 0x0001;

/// A provisioning request.
pub struct ProvisionRequest {
    /// `ecu`, `ams` or `udv` (any case, surrounding blanks ignored).
    pub role: String,
    pub interface: String,
    pub channel: Option<String>,
    pub bitrate: u32,
    pub node_id: Option<u8>,
    pub timeout_ms: u32,
}

/// The node id of a role, compared after trimming and ASCII lower-casing.
pub open spec fn role_node_id(lowered: Seq<char>) -> Option<u8> {
    if lowered == "ecu"@ {
        Some(1u8)
    } else if lowered == "ams"@ {
        Some(2u8)
    } else if lowered == "udv"@ {
        Some(3u8)
    } else {
        None
    }
}

/// The node id a role is provisioned with.
pub fn role_to_node_id(role: &str) -> (r: Option<u8>)
    ensures
        r == role_node_id(crate::cli::swd_flash::lower_text(trim_spec(role@))),
{
    let t = trim(role);
    let l = crate::cli::swd_flash::to_ascii_lowercase(t);
    let l = l.as_str();
    if crate::bootloader_fetch::str_eq(l, "ecu") {
        Some(1)
    } else if crate::bootloader_fetch::str_eq(l, "ams") {
        Some(2)
    } else if crate::bootloader_fetch::str_eq(l, "udv") {
        Some(3)
    } else {
        None
    }
}

/// The node id for a request's role, or the message naming the bad role.
pub fn provision_target(role: &str) -> (r: Result<u8, String>)
    ensures
        match role_node_id(crate::cli::swd_flash::lower_text(trim_spec(role@))) {
            Some(n) => r == Ok::<u8, String>(n),
            None => r matches Err(m) && m@ == "unknown role "@ + str_debug(role@)
                + "; expected one of: ecu, ams, udv"@,
        },
{
    match role_to_node_id(role) {
        Some(n) => Ok(n),
        None => {
            let mut m = String::from_str("unknown role ");
            let q = debug_quoted(role);
            m.append(q.as_str());
            m.append("; expected one of: ecu, ams, udv");
            Err(m)
        },
    }
}

/// The interface a provisioning request names, or the message quoting it.
pub fn provision_interface(s: &str) -> (r: Result<InterfaceType, String>)
    ensures
        match (r, crate::studio::flash::interface_spec(s@)) {
            (Ok(a), Ok(b)) => a == b,
            (Err(m), Err(_)) => m@ == "unknown interface "@ + str_debug(s@),
            _ => false,
        },
{
    match crate::studio::flash::parse_interface(s) {
        Ok(i) => Ok(i),
        Err(_) => {
            let mut m = String::from_str("unknown interface ");
            let q = debug_quoted(s);
            m.append(q.as_str());
            Err(m)
        },
    }
}

} // verus!
