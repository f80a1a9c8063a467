//! `pit-diag` subcommand: arm, stream, passively listen to and render the
//! pit-diag telemetry of the AMS, ECU and uDV boards.
use vstd::prelude::*;
use crate::parse::{debug_quoted, str_debug};
use crate::pit_diag::{self as ams, PitDiagFrame};
use crate::pit_diag::ecu::{self, EcuPitDiagFrame};
use crate::pit_diag::udv::{self, UdvPitDiagFrame};
use crate::protocol::CanFrame;

verus! {

/// Which board's stream a run targets.
#[derive(Clone, Copy, Debug, PartialEq, Eq, Structural)]
pub enum Profile {
    Ams,
    Ecu,
    Udv,
}

/// What `--profile` accepts: exactly `ams`, `ecu` or `udv`.
pub open spec fn profile_spec(s: Seq<char>) -> Result<Profile, Seq<char>> {
    if s == "ams"@ {
        Ok(Profile::Ams)
    } else if s == "ecu"@ {
        Ok(Profile::Ecu)
    } else if s == "udv"@ {
        Ok(Profile::Udv)
    } else {
        Err("unknown pit-diag profile "@ + str_debug(s) + ": supported profiles are 'ams', 'ecu', and 'udv'"@)
    }
}

/// Parse a profile name.
pub fn parse_profile(profile: &str) -> (r: Result<Profile, String>)
    ensures
        crate::parse::same_result(r, profile_spec(profile@)),
{
    if crate::bootloader_fetch::str_eq(profile, "ams") {
        Ok(Profile::Ams)
    } else if crate::bootloader_fetch::str_eq(profile, "ecu") {
        Ok(Profile::Ecu)
    } else if crate::bootloader_fetch::str_eq(profile, "udv") {
        Ok(Profile::Udv)
    } else {
        let mut m = String::from_str("unknown pit-diag profile ");
        let q = debug_quoted(profile);
        m.append(q.as_str());
        m.append(": supported profiles are 'ams', 'ecu', and 'udv'");
        Err(m)
    }
}

/// `pit-diag` arguments.
#[derive(Clone, Debug)]
pub struct PitDiagArgs {
    pub command: PitDiagCommand,
}

/// `pit-diag` sub-commands.
#[derive(Clone, Debug)]
pub enum PitDiagCommand {
    /// Arm the stream.
    Enable(ProfileArgs),
    /// Disarm the stream.
    Disable(ProfileArgs),
    /// Arm, render the stream, disarm on exit.
    Stream(StreamArgs),
    /// Render ungated frames without arming.
    Listen(ListenArgs),
}

/// A board profile by name.
#[derive(Clone, Debug)]
pub struct ProfileArgs {
    pub profile: String,
}

/// `pit-diag stream` arguments.
#[derive(Clone, Debug)]
pub struct StreamArgs {
    pub profile: String,
    /// Stop after this many seconds.
    pub duration: Option<u64>,
    /// Fail when a one-second window's frame count drifts by more than
    /// two from the profile's expected scan size.
    pub strict_scan: bool,
}

/// `pit-diag listen` arguments.
#[derive(Clone, Debug)]
pub struct ListenArgs {
    /// A profile name, or `all` / `both`.
    pub profile: String,
    /// Stop after this many milliseconds.
    pub duration_ms: Option<u64>,
}

/// Frames per one-second scan each profile's firmware emits.
pub open spec fn expected_per_scan_spec(p: Profile) -> usize {
    match p {
        Profile::Ams => ams::AMS_EXPECTED_FRAMES_PER_SCAN,
        Profile::Ecu => ecu::ECU_EXPECTED_FRAMES_PER_SCAN,
        Profile::Udv => udv::UDV_EXPECTED_FRAMES_PER_SCAN,
    }
}

/// Frames per one-second scan of the profile.
pub fn expected_per_scan(p: Profile) -> (n: usize)
    ensures
        n == expected_per_scan_spec(p),
{
    match p {
        Profile::Ams => ams::AMS_EXPECTED_FRAMES_PER_SCAN,
        Profile::Ecu => ecu::ECU_EXPECTED_FRAMES_PER_SCAN,
        Profile::Udv => udv::UDV_EXPECTED_FRAMES_PER_SCAN,
    }
}

/// A decoded pit-diag record of any board.
#[derive(Clone, Debug)]
pub enum Decoded {
    Ams(PitDiagFrame),
    Ecu(EcuPitDiagFrame),
    Udv(UdvPitDiagFrame),
}

/// Whether a record belongs to the cyclic scan (acknowledgements, uDV
/// firmware info and calibration progress do not).
pub open spec fn counts_in_scan_spec(d: Decoded) -> bool {
    match d {
        Decoded::Ams(r) => !(r is Ack),
        Decoded::Ecu(r) => !(r is Ack),
        Decoded::Udv(r) => !(r is FwInfo) && !(r is Calib),
    }
}

/// Whether a record belongs to the cyclic scan.
pub fn counts_in_scan(d: &Decoded) -> (b: bool)
    ensures
        b == counts_in_scan_spec(*d),
{
    match d {
        Decoded::Ams(r) => !matches!(r, PitDiagFrame::Ack { .. }),
        Decoded::Ecu(r) => !matches!(r, EcuPitDiagFrame::Ack { .. }),
        Decoded::Udv(r) => !matches!(r, UdvPitDiagFrame::FwInfo(_)) && !matches!(r, UdvPitDiagFrame::Calib(_)),
    }
}

/// Decode a frame with the profile's decoder.
pub fn decode_for_profile(p: Profile, frame: &CanFrame) -> (r: Option<Decoded>)
    requires
        frame.wf(),
    ensures
        p == Profile::Ams ==> (match ams::decode_spec(frame.id, frame.payload_view()) {
            Some(x) => r == Some(Decoded::Ams(x)),
            None => r is None,
        }),
        p == Profile::Ecu ==> (match ecu::decode_spec(frame.id, frame.payload_view()) {
            Some(x) => r == Some(Decoded::Ecu(x)),
            None => r is None,
        }),
        p == Profile::Udv ==> (match udv::decode_spec(frame.id, frame.payload_view()) {
            Some(x) => r == Some(Decoded::Udv(x)),
            None => r is None,
        }),
{
    match p {
        Profile::Ams => match ams::decode_frame(frame) {
            Some(x) => Some(Decoded::Ams(x)),
            None => None,
        },
        Profile::Ecu => match ecu::decode_frame(frame) {
            Some(x) => Some(Decoded::Ecu(x)),
            None => None,
        },
        Profile::Udv => match udv::decode_frame(frame) {
            Some(x) => Some(Decoded::Udv(x)),
            None => None,
        },
    }
}

/// Which decoders a passive listen runs: `all` / `both` (any case) runs
/// every decoder, a profile name pins one.
pub fn listen_filter(profile: &str) -> (r: Result<Option<Profile>, String>)
    ensures
        crate::firmware::loader::lower_eq(profile@, "all"@) || crate::firmware::loader::lower_eq(profile@, "both"@)
            ==> r == Ok::<Option<Profile>, String>(None),
        !(crate::firmware::loader::lower_eq(profile@, "all"@) || crate::firmware::loader::lower_eq(profile@, "both"@))
            ==> match profile_spec(profile@) {
            Ok(p) => r == Ok::<Option<Profile>, String>(Some(p)),
            Err(m) => r matches Err(e) && e@ == m,
        },
{
    let l = crate::cli::swd_flash::to_ascii_lowercase(profile);
    proof {
        assert(crate::firmware::loader::lower_eq(profile@, "all"@) <==> l@ == "all"@) by {
            if l@ == "all"@ {
                assert forall|i: int| 0 <= i < profile@.len() implies crate::firmware::loader::ascii_lower(
                    #[trigger] profile@[i],
                ) == "all"@[i] by {
                    assert(l@[i] == crate::firmware::loader::ascii_lower(profile@[i]));
                }
            }
            if crate::firmware::loader::lower_eq(profile@, "all"@) {
                assert(l@ =~= "all"@);
            }
        }
        assert(crate::firmware::loader::lower_eq(profile@, "both"@) <==> l@ == "both"@) by {
            if l@ == "both"@ {
                assert forall|i: int| 0 <= i < profile@.len() implies crate::firmware::loader::ascii_lower(
                    #[trigger] profile@[i],
                ) == "both"@[i] by {
                    assert(l@[i] == crate::firmware::loader::ascii_lower(profile@[i]));
                }
            }
            if crate::firmware::loader::lower_eq(profile@, "both"@) {
                assert(l@ =~= "both"@);
            }
        }
    }
    if crate::bootloader_fetch::str_eq(l.as_str(), "all") || crate::bootloader_fetch::str_eq(l.as_str(), "both") {
        return Ok(None);
    }
    match parse_profile(profile) {
        Ok(p) => Ok(Some(p)),
        Err(e) => Err(e),
    }
}

/// Decode a frame in a passive listen: the ECU decoder first, then the
/// AMS one, then the uDV one, each only when `filter` lets it run.
pub fn listen_decode(filter: Option<Profile>, frame: &CanFrame) -> (r: Option<Decoded>)
    requires
        frame.wf(),
    ensures
        ({
            let ecu_on = filter is None || filter == Some(Profile::Ecu);
            let ams_on = filter is None || filter == Some(Profile::Ams);
            let udv_on = filter is None || filter == Some(Profile::Udv);
            if ecu_on && ecu::decode_spec(frame.id, frame.payload_view()) is Some {
                r == Some(Decoded::Ecu(ecu::decode_spec(frame.id, frame.payload_view())->0))
            } else if ams_on && ams::decode_spec(frame.id, frame.payload_view()) is Some {
                r == Some(Decoded::Ams(ams::decode_spec(frame.id, frame.payload_view())->0))
            } else if udv_on && udv::decode_spec(frame.id, frame.payload_view()) is Some {
                r == Some(Decoded::Udv(udv::decode_spec(frame.id, frame.payload_view())->0))
            } else {
                r is None
            }
        }),
{
    let ecu_on = match filter {
        None => true,
        Some(p) => p == Profile::Ecu,
    };
    let ams_on = match filter {
        None => true,
        Some(p) => p == Profile::Ams,
    };
    let udv_on = match filter {
        None => true,
        Some(p) => p == Profile::Udv,
    };
    if ecu_on {
        if let Some(x) = ecu::decode_frame(frame) {
            return Some(Decoded::Ecu(x));
        }
    }
    if ams_on {
        if let Some(x) = ams::decode_frame(frame) {
            return Some(Decoded::Ams(x));
        }
    }
    if udv_on {
        if let Some(x) = udv::decode_frame(frame) {
            return Some(Decoded::Udv(x));
        }
    }
    None
}

/// The strict-scan check at a one-second roll: a non-empty window whose
/// count is more than two away from the expected scan size is schema
/// drift.
pub open spec fn drifted(count: usize, expected: usize) -> bool {
    count > 0 && (if count > expected { count - expected } else { expected - count }) > 2
}

/// Frame-count bookkeeping of a stream: frames seen in the current
/// one-second window.
#[derive(Clone, Copy, Debug, PartialEq, Eq, Structural)]
pub struct ScanCounter {
    pub frames_this_scan: usize,
}

impl ScanCounter {
    /// A fresh window.
    pub fn new() -> (c: ScanCounter)
        ensures
            c.frames_this_scan == 0,
    {
        ScanCounter { frames_this_scan: 0 }
    }

    /// Count a decoded record if it belongs to the cyclic scan.
    pub fn record(&mut self, d: &Decoded)
        ensures
            final(self).frames_this_scan == if counts_in_scan_spec(*d) && old(self).frames_this_scan < usize::MAX {
                (old(self).frames_this_scan + 1) as usize
            } else {
                old(self).frames_this_scan
            },
    {
        if counts_in_scan(d) && self.frames_this_scan < usize::MAX {
            self.frames_this_scan = self.frames_this_scan + 1;
        }
    }

    /// Close the one-second window: with `strict` on, a drifted count is
    /// an error carrying it; the window restarts at zero either way.
    pub fn roll(&mut self, strict: bool, expected: usize) -> (r: Result<(), usize>)
        ensures
            strict && drifted(old(self).frames_this_scan, expected) ==> r == Err::<(), usize>(
                old(self).frames_this_scan,
            ),
            !(strict && drifted(old(self).frames_this_scan, expected)) ==> r is Ok && final(self).frames_this_scan
                == 0,
    {
        let n = self.frames_this_scan;
        let diff = if n > expected { n - expected } else { expected - n };
        if strict && n > 0 && diff > 2 {
            return Err(n);
        }
        self.frames_this_scan = 0;
        Ok(())
    }
}

/// The schema-drift error of a strict stream.
pub fn drift_message(count: usize, expected: usize) -> (m: String)
    ensures
        m@ == "schema drift: last scan had "@ + crate::text::dec(count as nat) + " frames, expected "@
            + crate::text::dec(expected as nat)
            + " (±2). The firmware's pit-diag wire shape may have changed since this tool was built — check src/pit_diag against the DBCinator source."@,
{
    let mut m = String::from_str("schema drift: last scan had ");
    crate::text::push_dec(&mut m, count as u64);
    m.append(" frames, expected ");
    crate::text::push_dec(&mut m, expected as u64);
    m.append(
        " (±2). The firmware's pit-diag wire shape may have changed since this tool was built — check src/pit_diag against the DBCinator source.",
    );
    m
}

/// The id an arm/disarm ACK arrives on; uDV has none (sticky arm).
pub fn ack_id(p: Profile) -> (r: Option<u16>)
    ensures
        r == match p {
            Profile::Ams => Some(ams::AMS_ACK_ID),
            Profile::Ecu => Some(ecu::ECU_ACK_ID),
            Profile::Udv => None::<u16>,
        },
{
    match p {
        Profile::Ams => Some(ams::AMS_ACK_ID),
        Profile::Ecu => Some(ecu::ECU_ACK_ID),
        Profile::Udv => None,
    }
}

/// Does a frame received while arming (or disarming) confirm it? Only an
/// ACK on the profile's ACK id whose flag matches the request does; a
/// stale ACK of the other flavour is ignored.
pub open spec fn acks_spec(p: Profile, id: u16, payload: Seq<u8>, enable: bool) -> bool {
    match p {
        Profile::Ams => id == ams::AMS_ACK_ID && ams::decode_spec(id, payload) == Some(
            PitDiagFrame::Ack { enabled: enable },
        ),
        Profile::Ecu => id == ecu::ECU_ACK_ID && ecu::decode_spec(id, payload) == Some(
            EcuPitDiagFrame::Ack { enabled: enable },
        ),
        Profile::Udv => false,
    }
}

/// Classify a frame received during the arm handshake.
pub fn acks(p: Profile, frame: &CanFrame, enable: bool) -> (r: bool)
    requires
        frame.wf(),
    ensures
        r == acks_spec(p, frame.id, frame.payload_view(), enable),
{
    match p {
        Profile::Ams => {
            frame.id == ams::AMS_ACK_ID && match ams::decode_frame(frame) {
                Some(PitDiagFrame::Ack { enabled }) => enabled == enable,
                _ => false,
            }
        },
        Profile::Ecu => {
            frame.id == ecu::ECU_ACK_ID && match ecu::decode_frame(frame) {
                Some(EcuPitDiagFrame::Ack { enabled }) => enabled == enable,
                _ => false,
            }
        },
        Profile::Udv => false,
    }
}

/// The error when no matching ACK arrived within the 2-second window.
pub fn ack_timeout_message(p: Profile, enable: bool) -> (m: String)
    requires
        p != Profile::Udv,
    ensures
        m@ == "no "@ + (if enable { "enable"@ } else { "disable"@ }) + " ACK from "@ + (if p == Profile::Ams {
            "AMS"@
        } else {
            "ECU"@
        }) + " within 2000ms — is it on the bus, with pit-diag firmware?"@,
{
    let mut m = String::from_str("no ");
    m.append(if enable { "enable" } else { "disable" });
    m.append(" ACK from ");
    m.append(if p == Profile::Ams { "AMS" } else { "ECU" });
    m.append(" within 2000ms — is it on the bus, with pit-diag firmware?");
    m
}

/// What `enable` / `disable` print on success: a JSON object, or a check
/// mark with `armed` / `disarmed`.
pub fn arm_result_line(json: bool, profile: &str, enabled: bool) -> (s: String)
    ensures
        json ==> s@ == "{\"profile\":\""@ + profile@ + "\",\"enabled\":"@ + crate::text::bool_text(enabled) + "}"@,
        !json ==> s@ == "✓ "@ + profile@ + " pit-diag "@ + (if enabled { "armed"@ } else { "disarmed"@ }),
{
    if json {
        let mut s = String::from_str("{\"profile\":\"");
        s.append(profile);
        s.append("\",\"enabled\":");
        crate::text::push_bool(&mut s, enabled);
        s.append("}");
        s
    } else {
        let mut s = String::from_str("✓ ");
        s.append(profile);
        s.append(" pit-diag ");
        s.append(if enabled { "armed" } else { "disarmed" });
        s
    }
}

} // verus!
