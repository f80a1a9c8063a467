//! `verify` subcommand: compare the installed image against a file
//! without writing, through the bootloader's flash-verify command.
use vstd::prelude::*;
use crate::cli::config::hex_u32_spec;
use crate::parse::same_result;

verus! {

/// `verify` arguments.
#[derive(Clone, Debug)]
pub struct VerifyArgs {
    /// Path of the firmware file.
    pub firmware: String,
    /// Load address, required for a raw binary.
    pub address: Option<u32>,
}

/// Parse a 32-bit address, hex (`0x08020000`, `0X…`) or decimal.
pub fn parse_hex_u32(raw: &str) -> (r: Result<u32, String>)
    ensures
        same_result(r, hex_u32_spec(raw@)),
{
    crate::cli::config::parse_hex_u32(raw)
}

} // verus!
