//! Firmware image handling: the bootloader memory map, the normalised
//! [`Image`] and the `(crc32, size, packed_version)` triple that the
//! bootloader's flash-verify command expects.
//!
//! App region `0x0802_0000..=0x080D_FFFF` (768 KB, sectors 1..=6); sector 0
//! holds the bootloader, sector 7 its metadata. CRC variant:
//! CRC-32/ISO-HDLC.
pub mod loader;

use vstd::prelude::*;
use crc::{Crc, CRC_32_ISO_HDLC};
use crate::protocol::FirmwareInfo;

verus! {

/// First byte of the internal flash (sector 0).
pub const BL_FLASH_BASE: u32 = 0x0800_0000;
/// First byte of the app region — byte 0 of sector 1.
pub const BL_APP_BASE: u32 = 0x0802_0000;
/// Inclusive last byte of the app region.
pub const BL_APP_END: u32 = 0x080D_FFFF;
/// Maximum firmware size the host sends to the bootloader.
pub const BL_APP_MAX_SIZE: u32 = BL_APP_END - BL_APP_BASE + 1;
/// Flash sector size — 128 KB.
pub const BL_SECTOR_SIZE: u32 = 0x0002_0000;
/// Inclusive last byte of the bootloader's own sector.
pub const BL_BOOTLOADER_SECTOR_END: u32 = BL_APP_BASE - 1;
/// Inclusive last byte of the metadata sector (sector 7).
pub const BL_FLASH_END: u32 = 0x080F_FFFF;
/// Offset of the `__firmware_info` record from `BL_APP_BASE`.
pub const FW_INFO_OFFSET: u32 = 0x400;
/// Absolute address of the `__firmware_info` record.
pub const FW_INFO_ADDR: u32 = BL_APP_BASE + FW_INFO_OFFSET;

/// Sector holding `addr`, or `None` outside `BL_FLASH_BASE..=BL_FLASH_END`.
pub open spec fn sector_of_addr_spec(addr: u32) -> Option<u8> {
    if BL_FLASH_BASE <= addr <= BL_FLASH_END {
        Some(((addr - BL_FLASH_BASE) / BL_SECTOR_SIZE as int) as u8)
    } else {
        None
    }
}

/// Map a flash address to its sector number (`0..=7`); `None` for an
/// address outside the flash.
pub fn sector_of_addr(addr: u32) -> (r: Option<u8>)
    ensures
        r == sector_of_addr_spec(addr),
        r matches Some(s) ==> s <= 7,
{
    if addr < BL_FLASH_BASE || addr > BL_FLASH_END {
        return None;
    }
    Some(((addr - BL_FLASH_BASE) / BL_SECTOR_SIZE) as u8)
}

/// `k` rounds of the reflected CRC-32 shift register (polynomial
/// `0xEDB88320`, the bit reversal of `0x04C11DB7`).
pub open spec fn crc32_shift(c: u32, k: nat) -> u32
    decreases k,
{
    if k == 0 {
        c
    } else {
        let d = crc32_shift(c, (k - 1) as nat);
        if d & 1 == 1 {
            (d >> 1) ^ 0xEDB8_8320
        } else {
            d >> 1
        }
    }
}

/// The CRC-32 register after `bytes`, starting from `0xFFFFFFFF`; each
/// byte is XORed into the low bits, then shifted eight times.
pub open spec fn crc32_register(bytes: Seq<u8>) -> u32
    decreases bytes.len(),
{
    if bytes.len() == 0 {
        0xFFFF_FFFF
    } else {
        crc32_shift(crc32_register(bytes.drop_last()) ^ (bytes.last() as u32), 8)
    }
}

/// CRC-32/ISO-HDLC of a byte string: reflected input and output, init
/// `0xFFFFFFFF`, final XOR `0xFFFFFFFF`.
pub open spec fn crc32_iso_hdlc(bytes: Seq<u8>) -> u32 {
    crc32_register(bytes) ^ 0xFFFF_FFFF
}

/// Calls `crc::Crc::<u32>::checksum` with the `CRC_32_ISO_HDLC` catalogue
/// entry (width 32, polynomial `0x04C11DB7`, init `0xFFFFFFFF`, input and
/// output reflected, final XOR `0xFFFFFFFF`), which is the CRC that
/// [`crc32_iso_hdlc`] writes out bit by bit.
#[verifier::external_body]
fn crc32_checksum(bytes: &[u8]) -> (r: u32)
    ensures
        r == crc32_iso_hdlc(bytes@),
{
    Crc::<u32>::new(&CRC_32_ISO_HDLC).checksum(bytes)
}

/// CRC-32/ISO-HDLC — the variant the bootloader uses.
pub fn crc32(bytes: &[u8]) -> (r: u32)
    ensures
        r == crc32_iso_hdlc(bytes@),
{
    crc32_checksum(bytes)
}

/// `(major << 16) | (minor << 8) | patch`, each clamped to 255.
pub open spec fn pack_version_spec(major: u32, minor: u32, patch: u32) -> u32 {
    let m = if major > 255 { 255 } else { major };
    let n = if minor > 255 { 255 } else { minor };
    let p = if patch > 255 { 255 } else { patch };
    (m * 0x1_0000 + n * 0x100 + p) as u32
}

/// Pack `(major, minor, patch)` into the 24-bit layout of the bootloader's
/// metadata word; values above 255 are clamped to 255.
pub fn pack_version(major: u32, minor: u32, patch: u32) -> (r: u32)
    ensures
        r == pack_version_spec(major, minor, patch),
{
    let m = if major < 255 { major } else { 255 };
    let n = if minor < 255 { minor } else { 255 };
    let p = if patch < 255 { patch } else { 255 };
    let r = (m << 16) | (n << 8) | p;
    assert(r == m * 0x1_0000 + n * 0x100 + p) by (bit_vector)
        requires
            m <= 255,
            n <= 255,
            p <= 255,
            r == (m << 16) | (n << 8) | p,
    ;
    r
}

/// Errors validating an [`Image`] against the bootloader memory map; all
/// are protection violations.
#[derive(Clone, Copy, Debug, PartialEq, Eq, Structural)]
pub enum ImageError {
    BelowAppBase { base: u32, app_base: u32 },
    AboveAppEnd { end: u32, app_end_plus_one: u32 },
    /// A source segment overlaps the bootloader's own sector.
    TouchesBootloaderSector { segment_index: usize, addr: u32, end: u32 },
    /// A source segment ends past `BL_APP_END + 1`.
    BeyondAppRegion { segment_index: usize, addr: u32, end: u32, app_end_plus_one: u32 },
}

/// Normalised firmware image: source segments composed into one buffer
/// anchored at `base_addr`, gaps `0xFF`-padded.
#[derive(Clone, Debug)]
pub struct Image {
    /// Lowest byte address covered by the image.
    pub base_addr: u32,
    /// Contiguous bytes from `base_addr` onwards.
    pub data: Vec<u8>,
    /// Parsed `__firmware_info` record when the image covers it.
    pub fw_info: Option<FirmwareInfo>,
}

impl Image {
    /// The byte count as the bootloader sees it (`u32`).
    pub open spec fn size_spec(&self) -> u32 {
        self.data@.len() as u32
    }

    /// One past the last byte, saturating at `u32::MAX`.
    pub open spec fn end_addr_spec(&self) -> u32 {
        if self.base_addr + self.size_spec() > u32::MAX {
            u32::MAX
        } else {
            (self.base_addr + self.size_spec()) as u32
        }
    }

    /// Packed version of the firmware-info record, or 0 without one.
    pub open spec fn packed_version_spec(&self) -> u32 {
        match self.fw_info {
            Some(fw) => pack_version_spec(fw.fw_version_major, fw.fw_version_minor, fw.fw_version_patch),
            None => 0,
        }
    }

    /// What [`Image::validate_fits_app_region`] answers.
    pub open spec fn validate_spec(&self) -> Result<(), ImageError> {
        if self.base_addr < BL_APP_BASE {
            Err(ImageError::BelowAppBase { base: self.base_addr, app_base: BL_APP_BASE })
        } else if self.end_addr_spec() > BL_APP_END + 1 {
            Err(ImageError::AboveAppEnd { end: self.end_addr_spec(), app_end_plus_one: (BL_APP_END + 1) as u32 })
        } else {
            Ok(())
        }
    }

    /// Image size in bytes — `expected_size` of flash-verify.
    pub fn size(&self) -> (r: u32)
        ensures
            r == self.size_spec(),
    {
        self.data.len() as u32
    }

    /// First address past the end of the image (`base_addr + size`,
    /// saturating).
    pub fn end_addr(&self) -> (r: u32)
        ensures
            r == self.end_addr_spec(),
    {
        self.base_addr.saturating_add(self.size())
    }

    /// CRC-32/ISO-HDLC over the whole buffer — `expected_crc` of
    /// flash-verify.
    pub fn crc32(&self) -> (r: u32)
        ensures
            r == crc32_iso_hdlc(self.data@),
    {
        crc32(self.data.as_slice())
    }

    /// Version for flash-verify: the packed firmware-info version, 0
    /// without a record.
    pub fn packed_version(&self) -> (r: u32)
        ensures
            r == self.packed_version_spec(),
    {
        match &self.fw_info {
            Some(fw) => pack_version(fw.fw_version_major, fw.fw_version_minor, fw.fw_version_patch),
            None => 0,
        }
    }

    /// The image starts at or above `BL_APP_BASE` and ends at or below
    /// `BL_APP_END + 1`.
    pub fn validate_fits_app_region(&self) -> (r: Result<(), ImageError>)
        ensures
            r == self.validate_spec(),
    {
        if self.base_addr < BL_APP_BASE {
            return Err(ImageError::BelowAppBase { base: self.base_addr, app_base: BL_APP_BASE });
        }
        let end = self.end_addr();
        if end > BL_APP_END + 1 {
            return Err(ImageError::AboveAppEnd { end, app_end_plus_one: BL_APP_END + 1 });
        }
        Ok(())
    }

    /// Inclusive span of sectors the image occupies, from the sector of its
    /// first byte to the sector of its last byte; `None` for an empty image
    /// or one that leaves the flash.
    pub fn sector_range(&self) -> (r: Option<core::ops::RangeInclusive<u8>>)
        ensures
            r is Some <==> (self.size_spec() > 0 && sector_of_addr_spec(self.base_addr) is Some
                && sector_of_addr_spec((self.end_addr_spec() - 1) as u32) is Some),
            r matches Some(range) ==> {
                &&& Some(range@.start) == sector_of_addr_spec(self.base_addr)
                &&& Some(range@.end) == sector_of_addr_spec((self.end_addr_spec() - 1) as u32)
                &&& !range@.exhausted
            },
    {
        let size = self.size();
        if size == 0 {
            return None;
        }
        let start = match sector_of_addr(self.base_addr) {
            Some(s) => s,
            None => return None,
        };
        let last_addr = self.end_addr().saturating_sub(1);
        let end = match sector_of_addr(last_addr) {
            Some(e) => e,
            None => return None,
        };
        Some(start..=end)
    }
}


/// An image that passes [`Image::validate_fits_app_region`] and is not
/// empty occupies an ordered span of app sectors: its first and last
/// sectors lie in `1..=6`, and the first is the base address's sector.
pub proof fn lemma_valid_image_sectors_in_app_region(img: Image)
    requires
        img.validate_spec() is Ok,
        img.size_spec() > 0,
    ensures
        sector_of_addr_spec(img.base_addr) matches Some(s) && 1 <= s <= 6,
        sector_of_addr_spec((img.end_addr_spec() - 1) as u32) matches Some(e) && 1 <= e <= 6,
        sector_of_addr_spec(img.base_addr)->0 <= sector_of_addr_spec((img.end_addr_spec() - 1) as u32)->0,
{
    let b = img.base_addr;
    let l = (img.end_addr_spec() - 1) as u32;
    assert(BL_APP_BASE <= b <= l <= BL_APP_END);
    assert((b - BL_FLASH_BASE) / (BL_SECTOR_SIZE as int) <= (l - BL_FLASH_BASE) / (BL_SECTOR_SIZE as int)) by (nonlinear_arith)
        requires
            BL_FLASH_BASE <= b <= l,
    ;
}

/// Sector numbering is the block index of the address inside the flash:
/// every address of sector `s` maps to `s`, and sector `s` starts at
/// `BL_FLASH_BASE + s * BL_SECTOR_SIZE`.
pub proof fn lemma_sector_of_addr_blocks(s: u8, offset: u32)
    requires
        s <= 7,
        offset < BL_SECTOR_SIZE,
    ensures
        sector_of_addr_spec((BL_FLASH_BASE + s * BL_SECTOR_SIZE + offset) as u32) == Some(s),
{
    assert(((s * BL_SECTOR_SIZE + offset) / (BL_SECTOR_SIZE as int)) == s) by (nonlinear_arith)
        requires
            offset < BL_SECTOR_SIZE,
    ;
}

/// The packed version keeps each clamped field in its own byte: the
/// result fits in 24 bits and unpacks to `min(field, 255)`.
pub proof fn lemma_pack_version_fields(major: u32, minor: u32, patch: u32)
    ensures
        pack_version_spec(major, minor, patch) < 0x100_0000,
        pack_version_spec(major, minor, patch) / 0x1_0000 == if major > 255 { 255 } else { major },
        (pack_version_spec(major, minor, patch) / 0x100) % 0x100 == if minor > 255 { 255 } else { minor },
        pack_version_spec(major, minor, patch) % 0x100 == if patch > 255 { 255 } else { patch },
{
}

/// An image loaded at the app base spans the sectors from 1 to the one
/// holding its last byte, and no further: `k` whole sectors of data
/// span exactly sectors `1..=k`.
pub proof fn lemma_app_image_sector_span(img: Image)
    requires
        img.base_addr == BL_APP_BASE,
        0 < img.data@.len() <= BL_APP_MAX_SIZE,
    ensures
        sector_of_addr_spec(img.base_addr) == Some(1u8),
        sector_of_addr_spec((img.end_addr_spec() - 1) as u32) == Some((1 + (img.data@.len() - 1) / 0x2_0000) as u8),
        img.data@.len() % 0x2_0000 == 0 ==> sector_of_addr_spec((img.end_addr_spec() - 1) as u32) == Some(
            (img.data@.len() / 0x2_0000) as u8,
        ),
{
    let n = img.data@.len();
    assert((0x2_0000 + n - 1) / 0x2_0000 == 1 + (n - 1) / 0x2_0000) by (nonlinear_arith)
        requires
            n >= 1,
    ;
    if n % 0x2_0000 == 0 {
        assert(1 + (n - 1) / 0x2_0000 == n / 0x2_0000) by (nonlinear_arith)
            requires
                n >= 1,
                n % 0x2_0000 == 0,
        ;
    }
}

} // verus!
