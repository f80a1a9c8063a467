//! Wire-level types shared by every module: the classic-CAN frame.
use vstd::prelude::*;

verus! {

/// Error returned by [`CanFrame::new`] when the payload does not fit the
/// eight-byte classic-CAN ceiling.
#[derive(Clone, Copy, Debug, PartialEq, Eq)]
pub struct FrameTooLong {
    /// Length of the rejected payload.
    pub len: usize,
}

/// A classic CAN 2.0A frame: identifier, data length and eight data bytes
/// (bytes past `len` are zero).
#[derive(Clone, Copy, Debug)]
pub struct CanFrame {
    pub id: u16,
    pub len: u8,
    pub data: [u8; 8],
}

impl CanFrame {
    /// Classic-CAN payload ceiling.
    pub const MAX_LEN: usize = 8;

    /// The frame's length field is within the classic-CAN ceiling.
    pub open spec fn wf(&self) -> bool {
        self.len <= 8
    }

    /// The bytes the frame carries.
    pub open spec fn payload_view(&self) -> Seq<u8> {
        self.data@.subrange(0, self.len as int)
    }

    /// Build a frame from an identifier and a payload of at most eight bytes.
    pub fn new(id: u16, payload: &[u8]) -> (r: Result<CanFrame, FrameTooLong>)
        ensures
            r is Ok <==> payload@.len() <= 8,
            r matches Ok(f) ==> {
                &&& f.id == id
                &&& f.wf()
                &&& f.len == payload@.len()
                &&& f.payload_view() == payload@
                &&& forall|i: int| payload@.len() <= i < 8 ==> f.data@[i] == 0
            },
            r matches Err(e) ==> e.len == payload@.len(),
    {
        let n = payload.len();
        if n > 8 {
            return Err(FrameTooLong { len: n });
        }
        let b0 = if n > 0 { payload[0] } else { 0 };
        let b1 = if n > 1 { payload[1] } else { 0 };
        let b2 = if n > 2 { payload[2] } else { 0 };
        let b3 = if n > 3 { payload[3] } else { 0 };
        let b4 = if n > 4 { payload[4] } else { 0 };
        let b5 = if n > 5 { payload[5] } else { 0 };
        let b6 = if n > 6 { payload[6] } else { 0 };
        let b7 = if n > 7 { payload[7] } else { 0 };
        let f = CanFrame { id, len: n as u8, data: [b0, b1, b2, b3, b4, b5, b6, b7] };
        assert(f.payload_view() =~= payload@);
        Ok(f)
    }

    /// The payload bytes (`data[..len]`).
    pub fn payload(&self) -> (p: &[u8])
        requires
            self.wf(),
        ensures
            p@ == self.payload_view(),
    {
        vstd::slice::slice_subrange(self.data.as_slice(), 0, self.len as usize)
    }
}


/// The application's `__firmware_info` record (64 bytes, little-endian):
/// magic, record version, semantic version, MCU id, git hash, build
/// timestamp, product name and a reserved tail.
#[derive(Clone, Copy, Debug, PartialEq, Eq)]
pub struct FirmwareInfo {
    pub magic: u32,
    pub record_version: u32,
    pub fw_version_major: u32,
    pub fw_version_minor: u32,
    pub fw_version_patch: u32,
    pub mcu_id: u32,
    pub git_hash: [u8; 8],
    pub build_timestamp: u64,
    pub product_name: [u8; 16],
    pub reserved: u64,
}

/// Little-endian `u32` at offset `o` of `b`.
pub open spec fn le32_at(b: Seq<u8>, o: int) -> u32 {
    crate::bytes::le32(b[o], b[o + 1], b[o + 2], b[o + 3])
}

/// Little-endian `u64` at offset `o` of `b`.
pub open spec fn le64_at(b: Seq<u8>, o: int) -> u64 {
    crate::bytes::le64(b[o], b[o + 1], b[o + 2], b[o + 3], b[o + 4], b[o + 5], b[o + 6], b[o + 7])
}

fn le32_at_exec(b: &[u8], o: usize) -> (r: u32)
    requires
        o + 4 <= b@.len(),
    ensures
        r == le32_at(b@, o as int),
{
    crate::bytes::le32_of(b[o], b[o + 1], b[o + 2], b[o + 3])
}

fn le64_at_exec(b: &[u8], o: usize) -> (r: u64)
    requires
        o + 8 <= b@.len(),
    ensures
        r == le64_at(b@, o as int),
{
    crate::bytes::le64_of(b[o], b[o + 1], b[o + 2], b[o + 3], b[o + 4], b[o + 5], b[o + 6], b[o + 7])
}

impl FirmwareInfo {
    /// Encoded size of the record.
    pub const SIZE: usize = 64;

    /// The record decoded from the first 64 bytes of `b`.
    pub open spec fn layout(b: Seq<u8>) -> FirmwareInfo {
        FirmwareInfo {
            magic: le32_at(b, 0),
            record_version: le32_at(b, 4),
            fw_version_major: le32_at(b, 8),
            fw_version_minor: le32_at(b, 12),
            fw_version_patch: le32_at(b, 16),
            mcu_id: le32_at(b, 20),
            git_hash: [b[24], b[25], b[26], b[27], b[28], b[29], b[30], b[31]],
            build_timestamp: le64_at(b, 32),
            product_name: [b[40], b[41], b[42], b[43], b[44], b[45], b[46], b[47], b[48], b[49],
                b[50], b[51], b[52], b[53], b[54], b[55]],
            reserved: le64_at(b, 56),
        }
    }

    /// Decode the record from its 64-byte little-endian layout; `None`
    /// when fewer than 64 bytes are given.
    pub fn parse(b: &[u8]) -> (r: Option<FirmwareInfo>)
        ensures
            r == (if b@.len() >= 64 { Some(Self::layout(b@)) } else { None::<FirmwareInfo> }),
    {
        if b.len() < 64 {
            return None;
        }
        Some(FirmwareInfo {
            magic: le32_at_exec(b, 0),
            record_version: le32_at_exec(b, 4),
            fw_version_major: le32_at_exec(b, 8),
            fw_version_minor: le32_at_exec(b, 12),
            fw_version_patch: le32_at_exec(b, 16),
            mcu_id: le32_at_exec(b, 20),
            git_hash: [b[24], b[25], b[26], b[27], b[28], b[29], b[30], b[31]],
            build_timestamp: le64_at_exec(b, 32),
            product_name: [b[40], b[41], b[42], b[43], b[44], b[45], b[46], b[47], b[48], b[49],
                b[50], b[51], b[52], b[53], b[54], b[55]],
            reserved: le64_at_exec(b, 56),
        })
    }

    /// The record's wire layout, field by field: the six leading `u32`s are
    /// little-endian at offsets 0, 4, 8, 12, 16 and 20; the git hash is
    /// bytes 24..32 in order; the build timestamp is the little-endian
    /// `u64` at 32; the product name is bytes 40..56 in order; the
    /// reserved word is the little-endian `u64` at 56.
    pub proof fn lemma_layout_fields(b: Seq<u8>)
        requires
            b.len() >= 64,
        ensures
            ({
                let f = Self::layout(b);
                &&& f.magic == b[0] + b[1] * 0x100 + b[2] * 0x1_0000 + b[3] * 0x100_0000
                &&& f.record_version == b[4] + b[5] * 0x100 + b[6] * 0x1_0000 + b[7] * 0x100_0000
                &&& f.fw_version_major == b[8] + b[9] * 0x100 + b[10] * 0x1_0000 + b[11] * 0x100_0000
                &&& f.fw_version_minor == b[12] + b[13] * 0x100 + b[14] * 0x1_0000 + b[15] * 0x100_0000
                &&& f.fw_version_patch == b[16] + b[17] * 0x100 + b[18] * 0x1_0000 + b[19] * 0x100_0000
                &&& f.mcu_id == b[20] + b[21] * 0x100 + b[22] * 0x1_0000 + b[23] * 0x100_0000
                &&& f.git_hash@ == b.subrange(24, 32)
                &&& f.build_timestamp == b[32] + b[33] * 0x100 + b[34] * 0x1_0000 + b[35] * 0x100_0000 + (b[36]
                    + b[37] * 0x100 + b[38] * 0x1_0000 + b[39] * 0x100_0000) * 0x1_0000_0000
                &&& f.product_name@ == b.subrange(40, 56)
                &&& f.reserved == b[56] + b[57] * 0x100 + b[58] * 0x1_0000 + b[59] * 0x100_0000 + (b[60] + b[61]
                    * 0x100 + b[62] * 0x1_0000 + b[63] * 0x100_0000) * 0x1_0000_0000
            }),
    {
        let f = Self::layout(b);
        assert(f.git_hash@ =~= b.subrange(24, 32));
        assert(f.product_name@ =~= b.subrange(40, 56));
    }

    /// `(major, minor, patch)`.
    pub fn version(&self) -> (r: (u32, u32, u32))
        ensures
            r == (self.fw_version_major, self.fw_version_minor, self.fw_version_patch),
    {
        (self.fw_version_major, self.fw_version_minor, self.fw_version_patch)
    }
}


/// Reasons the bootloader gives when it NACKs a command, as far as the
/// host distinguishes them; any other code is kept raw.
#[derive(Clone, Copy, Debug, PartialEq, Eq, Structural)]
pub enum NackCode {
    /// The address lies in a protected region.
    ProtectedAddr,
    /// A CRC the host supplied did not match the device's.
    CrcMismatch,
    /// The flash hardware reported a fault.
    FlashHw,
    /// Any other code.
    Other(u8),
}

/// The flash commands the sector engine issues.
#[derive(Clone, Copy, Debug, PartialEq, Eq, Structural)]
pub enum FlashOpcode {
    FlashReadCrc,
    FlashErase,
    FlashWrite,
    FlashVerify,
}


/// Token the bootloader demands with the option-byte WRP apply command so
/// a stray frame cannot latch write protection.
pub const OB_APPLY_TOKEN: u32 = 0x0050_5257;

/// The bootloader's 16-byte option-byte status record: WRP sector mask,
/// user configuration word, RDP and BOR levels, two reserved bytes and a
/// reserved word, little-endian in that order.
#[derive(Clone, Copy, Debug, PartialEq, Eq)]
pub struct ObStatus {
    pub wrp_sector_mask: u32,
    pub user_config: u32,
    pub rdp_level: u8,
    pub bor_level: u8,
    pub reserved: [u8; 2],
    pub reserved_ext: u32,
}

impl ObStatus {
    /// Encoded size of the record.
    pub const SIZE: usize = 16;

    /// Whether the WRP mask protects `sector` (bit `sector` set).
    pub open spec fn protects(&self, sector: u8) -> bool {
        sector < 32 && (self.wrp_sector_mask >> sector) & 1 == 1
    }

    /// Whether sector `sector` is write-protected.
    pub fn is_sector_protected(&self, sector: u8) -> (r: bool)
        ensures
            r == self.protects(sector),
    {
        sector < 32 && (self.wrp_sector_mask >> sector) & 1 == 1
    }

    /// The record decoded from the first 16 bytes of `b`.
    pub open spec fn layout(b: Seq<u8>) -> ObStatus {
        ObStatus {
            wrp_sector_mask: le32_at(b, 0),
            user_config: le32_at(b, 4),
            rdp_level: b[8],
            bor_level: b[9],
            reserved: [b[10], b[11]],
            reserved_ext: le32_at(b, 12),
        }
    }

    /// The record's wire layout, field by field: WRP mask and user
    /// configuration little-endian at 0 and 4, RDP level byte 8, BOR level
    /// byte 9, bytes 10..12 reserved, the little-endian word at 12 reserved.
    pub proof fn lemma_layout_fields(b: Seq<u8>)
        requires
            b.len() >= 16,
        ensures
            ({
                let f = Self::layout(b);
                &&& f.wrp_sector_mask == b[0] + b[1] * 0x100 + b[2] * 0x1_0000 + b[3] * 0x100_0000
                &&& f.user_config == b[4] + b[5] * 0x100 + b[6] * 0x1_0000 + b[7] * 0x100_0000
                &&& f.rdp_level == b[8]
                &&& f.bor_level == b[9]
                &&& f.reserved@ == b.subrange(10, 12)
                &&& f.reserved_ext == b[12] + b[13] * 0x100 + b[14] * 0x1_0000 + b[15] * 0x100_0000
            }),
    {
        assert(Self::layout(b).reserved@ =~= b.subrange(10, 12));
    }

    /// Decode the record; `None` when fewer than 16 bytes are given.
    pub fn parse(b: &[u8]) -> (r: Option<ObStatus>)
        ensures
            r == (if b@.len() >= 16 { Some(Self::layout(b@)) } else { None::<ObStatus> }),
    {
        if b.len() < 16 {
            return None;
        }
        Some(ObStatus {
            wrp_sector_mask: le32_at_exec(b, 0),
            user_config: le32_at_exec(b, 4),
            rdp_level: b[8],
            bor_level: b[9],
            reserved: [b[10], b[11]],
            reserved_ext: le32_at_exec(b, 12),
        })
    }
}

/// Reset flavours the bootloader's reset command takes.
#[derive(Clone, Copy, Debug, PartialEq, Eq, Structural)]
pub enum ResetMode {
    Hard,
    Soft,
    Bootloader,
    App,
}

impl ResetMode {
    /// Wire byte of each mode.
    pub open spec fn byte_spec(self) -> u8 {
        match self {
            ResetMode::Hard => 0,
            ResetMode::Soft => 1,
            ResetMode::Bootloader => 2,
            ResetMode::App => 3,
        }
    }

    /// Wire byte of the mode.
    pub fn as_byte(self) -> (r: u8)
        ensures
            r == self.byte_spec(),
    {
        match self {
            ResetMode::Hard => 0,
            ResetMode::Soft => 1,
            ResetMode::Bootloader => 2,
            ResetMode::App => 3,
        }
    }
}

} // verus!
