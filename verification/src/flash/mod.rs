//! Sector-aware flash engine. [`FlashManager`] turns a normalised
//! [`Image`] into the erase / write / read-CRC / verify command sequence:
//!
//! - per-sector CRC diff before touching anything — re-flashing an
//!   unchanged image issues zero erases and zero writes;
//! - sector-sized erases, write chunks padded to the 32-byte FLASHWORD;
//! - post-write per-sector CRC verify, hard-failing on mismatch;
//! - a final verify commit that makes the bootloader write its metadata;
//! - dry-run reads and computes everything but erases and writes nothing.
//!
//! The engine is a state machine: [`FlashRun`] hands out the next command
//! for the session to send and consumes the device's reply.
pub mod engine;
pub mod laws;

use vstd::prelude::*;
use std::borrow::Cow;
use crate::cli::ExitCodeHint;
use crate::firmware::{
    crc32_iso_hdlc, sector_of_addr, sector_of_addr_spec, Image, BL_APP_BASE, BL_SECTOR_SIZE,
};
use crate::protocol::{FlashOpcode, NackCode};
use crate::session::SessionError;

verus! {

/// FLASHWORD size — every write chunk is padded to a multiple of it.
pub const FLASHWORD_SIZE: u32 = 32;

/// Default bytes per flash-write payload: 256 B.
pub const DEFAULT_WRITE_CHUNK: usize = 256;

/// Tunable knobs for one flash run.
#[derive(Clone, Copy, Debug, PartialEq, Eq, Structural)]
pub struct FlashConfig {
    /// Skip sectors whose on-device CRC already matches the image.
    pub diff: bool,
    /// Read and compute everything but send no erase / write / commit.
    pub dry_run: bool,
    /// Read each written sector's CRC back and compare.
    pub verify_after: bool,
    /// Bytes per flash-write payload (1..=256).
    pub write_chunk_size: usize,
    /// Send the final verify commit.
    pub final_commit: bool,
}

impl Default for FlashConfig {
    /// Diff on, dry-run off, verify on, 256-byte chunks, commit on.
    fn default() -> (r: Self)
        ensures
            r == (FlashConfig {
                diff: true,
                dry_run: false,
                verify_after: true,
                write_chunk_size: DEFAULT_WRITE_CHUNK,
                final_commit: true,
            }),
    {
        FlashConfig {
            diff: true,
            dry_run: false,
            verify_after: true,
            write_chunk_size: DEFAULT_WRITE_CHUNK,
            final_commit: true,
        }
    }
}

/// Per-sector plan after the diff phase.
#[derive(Clone, Copy, Debug, PartialEq, Eq, Structural)]
pub enum SectorRole {
    /// The device already holds matching bytes.
    Skip,
    /// The sector needs an erase + rewrite.
    Write,
}

/// A run time as the two parts a `Duration` is made of: whole seconds and
/// the nanoseconds past them.
#[derive(Clone, Copy, Debug, PartialEq, Eq, Structural)]
pub struct Elapsed {
    pub secs: u64,
    pub nanos: u32,
}

impl Elapsed {
    /// Whole milliseconds of the run time (`Duration::as_millis`).
    pub open spec fn millis(self) -> nat {
        (self.secs * 1000 + self.nanos / 1_000_000) as nat
    }

    /// Whole milliseconds narrowed to `u64` by dropping the high bits, as
    /// `as_millis() as u64` does.
    pub open spec fn millis_u64(self) -> u64 {
        (self.millis() % 0x1_0000_0000_0000_0000) as u64
    }

    /// Whole milliseconds of the run time.
    pub fn as_millis(&self) -> (r: u128)
        ensures
            r == self.millis(),
    {
        self.secs as u128 * 1000 + (self.nanos / 1_000_000) as u128
    }
}

/// Outcome of a successful run. The three sector lists are disjoint:
/// every sector of the image's span is either written or skipped, and
/// none is left erased, since a successful run rewrites every sector it
/// erases (see `lemma_report_lists_disjoint`).
#[derive(Clone, Debug)]
pub struct FlashReport {
    pub sectors_erased: Vec<u8>,
    pub sectors_written: Vec<u8>,
    pub sectors_skipped: Vec<u8>,
    /// CRC-32/ISO-HDLC of the composed image.
    pub crc32: u32,
    /// Image byte count.
    pub size: u32,
    /// Packed version, 0 without a firmware-info record.
    pub version: u32,
    /// Duration of the run.
    pub duration: Elapsed,
}

/// Progress event emitted during a run.
#[derive(Clone, Debug)]
pub enum FlashEvent {
    /// The diff decided what to do with this sector.
    PlanningSector { sector: u8, role: SectorRole },
    /// The erase of this sector was acknowledged.
    Erased { sector: u8 },
    /// A chunk landed; `bytes` is cumulative within the sector, `total`
    /// the sector's byte count.
    ChunkWritten { sector: u8, bytes: u32, total: u32 },
    /// The post-write CRC read confirmed the sector.
    SectorVerified { sector: u8, crc: u32 },
    /// About to send the final verify commit.
    Committing,
    /// The run finished.
    Done { report: FlashReport },
}

/// Every failure mode the engine surfaces.
#[derive(Clone, Debug)]
pub enum FlashError {
    /// Session / transport failure.
    Session(SessionError),
    /// The device NACKed a command.
    Nack { rejected_opcode: u8, code: NackCode },
    /// The device replied with something other than the expected ACK.
    UnexpectedReply { expected_opcode: FlashOpcode, detail: &'static str },
    /// Post-write sector CRC did not match the host's.
    SectorCrcMismatch { sector: u8, expected: u32, got: u32 },
    /// The final verify came back NACK(CRC mismatch).
    FinalVerifyMismatch { expected_crc: u32, expected_size: u32, expected_version: u32 },
    /// The image does not map to a sector range.
    InvalidImage { detail: &'static str },
}

impl FlashError {
    /// Exit-code hint of each error family.
    pub open spec fn hint_spec(&self) -> ExitCodeHint {
        match self {
            FlashError::Session(SessionError::CommandTimeout(_)) => ExitCodeHint::DeviceNotFound,
            FlashError::Session(SessionError::RxClosed) => ExitCodeHint::DeviceNotFound,
            FlashError::Nack { code: NackCode::ProtectedAddr, .. } => ExitCodeHint::ProtectionViolation,
            FlashError::FinalVerifyMismatch { .. } => ExitCodeHint::VerifyMismatch,
            FlashError::InvalidImage { .. } => ExitCodeHint::InputFileError,
            _ => ExitCodeHint::FlashError,
        }
    }

    /// Exit-code hint for the CLI's exit-code table.
    pub fn exit_code_hint(&self) -> (r: ExitCodeHint)
        ensures
            r == self.hint_spec(),
    {
        match self {
            FlashError::Session(SessionError::CommandTimeout(_)) => ExitCodeHint::DeviceNotFound,
            FlashError::Session(SessionError::RxClosed) => ExitCodeHint::DeviceNotFound,
            FlashError::Nack { code: NackCode::ProtectedAddr, .. } => ExitCodeHint::ProtectionViolation,
            FlashError::FinalVerifyMismatch { .. } => ExitCodeHint::VerifyMismatch,
            FlashError::InvalidImage { .. } => ExitCodeHint::InputFileError,
            _ => ExitCodeHint::FlashError,
        }
    }
}

/// A session error as a flash error: an already-parsed NACK keeps the
/// NACK shape, anything else is wrapped.
pub open spec fn map_session_err_spec(err: SessionError) -> FlashError {
    match err {
        SessionError::Nack { rejected_opcode, code } => FlashError::Nack { rejected_opcode, code },
        other => FlashError::Session(other),
    }
}

pub fn map_session_err(err: SessionError) -> (r: FlashError)
    ensures
        r == map_session_err_spec(err),
{
    match err {
        SessionError::Nack { rejected_opcode, code } => FlashError::Nack { rejected_opcode, code },
        other => FlashError::Session(other),
    }
}

/// First address of app sector `sector` (1..=6).
pub open spec fn sector_base_spec(sector: u8) -> u32 {
    (BL_APP_BASE + (sector - 1) * BL_SECTOR_SIZE) as u32
}

/// First address of app sector `sector`.
pub fn sector_base_addr(sector: u8) -> (r: u32)
    requires
        1 <= sector <= 6,
    ensures
        r == sector_base_spec(sector),
{
    BL_APP_BASE + ((sector - 1) as u32) * BL_SECTOR_SIZE
}

/// `chunk` padded with `0xFF` up to the next FLASHWORD multiple.
pub open spec fn pad_spec(chunk: Seq<u8>) -> Seq<u8> {
    if chunk.len() % 32 == 0 {
        chunk
    } else {
        chunk + Seq::new((32 - chunk.len() % 32) as nat, |i: int| 0xFFu8)
    }
}

/// Pad a write chunk with `0xFF` to FLASHWORD alignment; an aligned chunk
/// is returned borrowed.
pub fn pad_to_flashword(chunk: &[u8]) -> (r: Cow<'_, [u8]>)
    ensures
        r@ == pad_spec(chunk@),
        (chunk@.len() % 32 == 0) == (r is Borrowed),
{
    let remainder = chunk.len() % 32;
    if remainder == 0 {
        Cow::Borrowed(chunk)
    } else {
        let pad = 32 - remainder;
        let mut v: Vec<u8> = Vec::new();
        v.extend_from_slice(chunk);
        let mut i: usize = 0;
        while i < pad
            invariant
                i <= pad,
                pad == 32 - chunk@.len() % 32,
                v@ == chunk@ + Seq::new(i as nat, |j: int| 0xFFu8),
            decreases pad - i,
        {
            v.push(0xFF);
            i = i + 1;
            assert(v@ =~= chunk@ + Seq::new(i as nat, |j: int| 0xFFu8));
        }
        assert(v@ =~= pad_spec(chunk@));
        Cow::Owned(v)
    }
}

/// Given a flash address, its sector number (or `None` outside flash).
pub fn sector_of(addr: u32) -> (r: Option<u8>)
    ensures
        r == sector_of_addr_spec(addr),
{
    sector_of_addr(addr)
}

/// The image can drive the engine: it fits the app region, starts on a
/// sector boundary and its byte count fits the `u32` size field.
pub open spec fn flashable(img: &Image) -> bool {
    &&& img.validate_spec() is Ok
    &&& img.base_addr % BL_SECTOR_SIZE == 0
    &&& img.data@.len() <= u32::MAX
}

/// The image has a sector range: it is not empty and its first and last
/// bytes lie in flash sectors.
pub open spec fn has_sector_range(img: &Image) -> bool {
    &&& img.size_spec() > 0
    &&& sector_of_addr_spec(img.base_addr) is Some
    &&& sector_of_addr_spec((img.end_addr_spec() - 1) as u32) is Some
}

/// `sector` lies within the image's sector span.
pub open spec fn sector_in_image(img: &Image, sector: u8) -> bool {
    &&& 1 <= sector <= 6
    &&& img.base_addr <= sector_base_spec(sector)
    &&& sector_base_spec(sector) < img.base_addr + img.data@.len()
}

/// Bytes of the image that land in `sector`; the tail past the image's
/// end reads as erased flash (`0xFF`).
pub open spec fn sector_bytes_spec(img: &Image, sector: u8) -> Seq<u8> {
    let start = sector_base_spec(sector) - img.base_addr;
    if sector_base_spec(sector) + BL_SECTOR_SIZE <= img.base_addr + img.data@.len() {
        img.data@.subrange(start, start + BL_SECTOR_SIZE)
    } else {
        img.data@.subrange(start, img.data@.len() as int) + Seq::new(
            (BL_SECTOR_SIZE - (img.data@.len() - start)) as nat,
            |i: int| 0xFFu8,
        )
    }
}

/// The CRC the device must report for `sector` after a correct write.
pub open spec fn expected_sector_crc_spec(img: &Image, sector: u8) -> u32 {
    crc32_iso_hdlc(sector_bytes_spec(img, sector))
}

/// Sector-aware flash pipeline over one image.
pub struct FlashManager<'a> {
    pub image: &'a Image,
    pub config: FlashConfig,
}

impl<'a> FlashManager<'a> {
    /// Build an engine; no command is issued until a run starts.
    pub fn new(image: &'a Image, config: FlashConfig) -> (r: Self)
        ensures
            r.image == image,
            r.config == config,
    {
        FlashManager { image, config }
    }

    /// Bytes of the image that land in `sector`, `0xFF`-padded past the
    /// image's end; borrowed when the sector lies fully inside the image.
    pub fn sector_bytes(&self, sector: u8) -> (r: Cow<'a, [u8]>)
        requires
            flashable(self.image),
            sector_in_image(self.image, sector),
        ensures
            r@ == sector_bytes_spec(self.image, sector),
            r@.len() == BL_SECTOR_SIZE,
    {
        let img = self.image;
        let sector_base = sector_base_addr(sector);
        let sector_end = sector_base + BL_SECTOR_SIZE;
        let image_base = img.base_addr;
        let image_end = image_base + img.size();
        proof {
            assert(img.data@.len() <= BL_SECTOR_SIZE * 6);
        }
        let start_off = (sector_base - image_base) as usize;
        if sector_end <= image_end {
            let end_off = start_off + BL_SECTOR_SIZE as usize;
            Cow::Borrowed(vstd::slice::slice_subrange(img.data.as_slice(), start_off, end_off))
        } else {
            let available = (image_end - sector_base) as usize;
            let mut buf: Vec<u8> = Vec::with_capacity(BL_SECTOR_SIZE as usize);
            buf.extend_from_slice(vstd::slice::slice_subrange(img.data.as_slice(), start_off, start_off + available));
            let ghost head = buf@;
            proof {
                assert(head =~= img.data@.subrange(start_off as int, img.data@.len() as int));
            }
            while buf.len() < BL_SECTOR_SIZE as usize
                invariant
                    buf@.len() <= BL_SECTOR_SIZE,
                    head.len() == available,
                    buf@.len() >= available,
                    buf@ == head + Seq::new((buf@.len() - available) as nat, |j: int| 0xFFu8),
                decreases BL_SECTOR_SIZE - buf@.len(),
            {
                let ghost before = buf@;
                buf.push(0xFF);
                assert(buf@ =~= head + Seq::new((buf@.len() - available) as nat, |j: int| 0xFFu8));
            }
            assert(buf@ =~= sector_bytes_spec(img, sector));
            Cow::Owned(buf)
        }
    }

    /// CRC the device must report for `sector` once correctly written.
    pub fn expected_sector_crc(&self, sector: u8) -> (r: u32)
        requires
            flashable(self.image),
            sector_in_image(self.image, sector),
        ensures
            r == expected_sector_crc_spec(self.image, sector),
    {
        let bytes = self.sector_bytes(sector);
        let view: &[u8] = match &bytes {
            Cow::Borrowed(b) => b,
            Cow::Owned(v) => v.as_slice(),
        };
        crate::firmware::crc32(view)
    }
}

/// The app sectors tile the application region: sector 1 starts at the
/// app base, each sector starts one sector size after the one before, and
/// every address of sector `s` maps back to `s`.
pub proof fn lemma_sector_tiling(sector: u8, offset: u32)
    requires
        1 <= sector <= 6,
        offset < BL_SECTOR_SIZE,
    ensures
        sector_base_spec(1) == BL_APP_BASE,
        sector < 6 ==> sector_base_spec((sector + 1) as u8) == sector_base_spec(sector) + BL_SECTOR_SIZE,
        sector_of_addr_spec((sector_base_spec(sector) + offset) as u32) == Some(sector),
{
    assert((sector - 1) * 0x0002_0000int + 0x0002_0000 == sector * 0x0002_0000int) by (nonlinear_arith);
    assert(1 <= sector <= 6 ==> (sector - 1) * 0x0002_0000int <= 5 * 0x0002_0000) by (nonlinear_arith);
    let a: int = 0x0802_0000 + (sector - 1) * 0x0002_0000int + offset;
    assert(((a - 0x0800_0000) / 0x0002_0000) == sector) by (nonlinear_arith)
        requires
            a == 0x0802_0000 + (sector - 1) * 0x0002_0000int + offset,
            offset < 0x0002_0000,
            1 <= sector <= 6,
    ;
}

} // verus!
