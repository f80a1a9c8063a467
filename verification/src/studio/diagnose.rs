//! Diagnostics for the desktop front-end: the request and the health and
//! DTC snapshots it shows.
use vstd::prelude::*;
use crate::text::{hex_upper, push_hex_upper};

verus! {

/// A diagnostics request.
pub struct DiagnoseRequest {
    pub interface: String,
    pub channel: Option<String>,
    pub bitrate: u32,
    pub node_id: Option<u8>,
    pub timeout_ms: u32,
}

/// The bootloader's health record, flags decoded.
#[derive(Clone, Debug, PartialEq)]
pub struct HealthSnapshot {
    pub uptime_seconds: u32,
    /// The reset cause's name, or `UNKNOWN (0xNN)`.
    pub reset_cause: String,
    pub reset_cause_raw: u32,
    pub flash_write_count: u32,
    pub dtc_count: u32,
    pub last_dtc_code: u32,
    pub session_active: bool,
    pub valid_app_present: bool,
    pub wrp_protected: bool,
    pub raw_flags: u32,
}

/// One stored diagnostic trouble code.
#[derive(Clone, Debug, PartialEq)]
pub struct DtcSnapshot {
    pub code: u16,
    pub severity: String,
    pub severity_raw: u8,
    pub occurrence_count: u8,
    pub first_seen_uptime_seconds: u32,
    pub last_seen_uptime_seconds: u32,
    pub context_data: u32,
}

/// The name shown for a reset-cause value with no known name.
pub fn unknown_reset_cause(raw: u32) -> (s: String)
    ensures
        s@ == "UNKNOWN (0x"@ + hex_upper(raw as nat, 2) + ")"@,
{
    let mut s = String::from_str("UNKNOWN (0x");
    push_hex_upper(&mut s, raw as u64, 2);
    s.append(")");
    s
}

impl HealthSnapshot {
    /// The snapshot of a health record from its fields and its decoded
    /// parts: the reset cause's name when the value has one (else
    /// `UNKNOWN (0xNN)`) and the three flag bits.
    pub fn from_parts(
        uptime_seconds: u32,
        reset_cause_name: Option<&str>,
        reset_cause_raw: u32,
        flash_write_count: u32,
        dtc_count: u32,
        last_dtc_code: u32,
        session_active: bool,
        valid_app_present: bool,
        wrp_protected: bool,
        raw_flags: u32,
    ) -> (h: HealthSnapshot)
        ensures
            h.uptime_seconds == uptime_seconds,
            h.reset_cause@ == match reset_cause_name {
                Some(n) => n@,
                None => "UNKNOWN (0x"@ + hex_upper(reset_cause_raw as nat, 2) + ")"@,
            },
            h.reset_cause_raw == reset_cause_raw,
            h.flash_write_count == flash_write_count,
            h.dtc_count == dtc_count,
            h.last_dtc_code == last_dtc_code,
            h.session_active == session_active,
            h.valid_app_present == valid_app_present,
            h.wrp_protected == wrp_protected,
            h.raw_flags == raw_flags,
    {
        let reset_cause = match reset_cause_name {
            Some(n) => String::from_str(n),
            None => unknown_reset_cause(reset_cause_raw),
        };
        HealthSnapshot {
            uptime_seconds,
            reset_cause,
            reset_cause_raw,
            flash_write_count,
            dtc_count,
            last_dtc_code,
            session_active,
            valid_app_present,
            wrp_protected,
            raw_flags,
        }
    }
}

} // verus!
