//! SWD flash view: probe descriptors, flash requests and the base
//! address argument.
use vstd::prelude::*;
use crate::cli::swd_flash::hex_u64_spec;
use crate::parse::{debug_quoted, str_debug, trim, trim_spec};

verus! {

/// Default SWD load address: the start of main flash, where the
/// bootloader lives.
pub const DEFAULT_BASE_ADDR: u64 = 0x0800_0000;

/// A debug probe as the front-end lists it.
#[derive(Clone, Debug)]
pub struct ProbeInfo {
    pub identifier: String,
    pub serial_number: Option<String>,
    pub vendor_id: u16,
    pub product_id: u16,
}

/// Inputs of one SWD flash.
#[derive(Clone, Debug)]
pub struct SwdFlashArgs {
    pub artifact_path: String,
    pub chip: Option<String>,
    pub probe_serial: Option<String>,
    /// Hex `0x…` or decimal; `None` is the default base.
    pub base: Option<String>,
    pub verify: bool,
    pub reset_after: bool,
}

/// Parse a `0x`-prefixed hex or decimal address, ignoring surrounding
/// whitespace; `None` on bad input.
pub fn parse_hex_u64(s: &str) -> (r: Option<u64>)
    ensures
        r == hex_u64_spec(trim_spec(s@)),
{
    crate::cli::swd_flash::parse_hex_u64(trim(s))
}

/// The load address a request asks for: its `base` parsed, or the
/// default when it gives none.
pub fn base_address(base: Option<&str>) -> (r: Result<u64, String>)
    ensures
        base is None ==> r == Ok::<u64, String>(DEFAULT_BASE_ADDR),
        base matches Some(b) ==> match hex_u64_spec(trim_spec(b@)) {
            Some(v) => r == Ok::<u64, String>(v),
            None => r matches Err(e) && e@ == "--base must be 0x-prefixed hex or decimal; got Some("@ + str_debug(b@)
                + ")"@,
        },
{
    match base {
        None => Ok(DEFAULT_BASE_ADDR),
        Some(b) => match parse_hex_u64(b) {
            Some(v) => Ok(v),
            None => {
                let mut m = String::from_str("--base must be 0x-prefixed hex or decimal; got Some(");
                let q = debug_quoted(b);
                m.append(q.as_str());
                m.append(")");
                Err(m)
            },
        },
    }
}

} // verus!
