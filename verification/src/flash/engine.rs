//! The flash run as a state machine: the session sends each command the
//! machine hands out and feeds the device's reply back in.
use vstd::prelude::*;
use std::borrow::Cow;
use super::{
    expected_sector_crc_spec, flashable, map_session_err, map_session_err_spec, pad_spec,
    pad_to_flashword, sector_base_addr, sector_base_spec, sector_bytes_spec, sector_in_image,
    has_sector_range, Elapsed, FlashConfig, FlashError, FlashEvent, FlashManager, FlashReport, SectorRole,
};
use crate::bytes::le32;
use crate::firmware::{crc32_iso_hdlc, sector_of_addr_spec, Image, BL_SECTOR_SIZE};
use crate::protocol::{FlashOpcode, NackCode};
use crate::session::SessionError;

verus! {

/// A command the engine asks the session to send.
#[derive(Clone, Debug)]
pub enum FlashCommand {
    /// Read the CRC of `len` bytes at `addr` (one whole sector).
    ReadCrc { sector: u8, addr: u32, len: u32 },
    /// Erase `len` bytes at `addr` (one whole sector).
    Erase { sector: u8, addr: u32, len: u32 },
    /// Program `data` (FLASHWORD-padded) at `addr`.
    Write { sector: u8, addr: u32, data: Vec<u8> },
    /// Final verify commit with the image's CRC, size and packed version.
    Verify { crc: u32, size: u32, version: u32 },
}

/// The device's answer to a command, as the session delivers it.
#[derive(Clone, Debug)]
pub enum DeviceReply {
    /// An ACK; `opcode_matches` tells whether it echoes the command sent;
    /// `kind` names the reply for diagnostics.
    Ack { opcode_matches: bool, payload: Vec<u8>, kind: &'static str },
    /// A NACK.
    Nack { rejected_opcode: u8, code: NackCode },
    /// Any other reply kind.
    Other { kind: &'static str },
    /// The round trip itself failed.
    Failed(SessionError),
}

/// What the session must do next.
#[derive(Debug)]
pub enum FlashAction {
    Send(FlashCommand),
    Finished(Result<FlashReport, FlashError>),
}

/// Events to emit, then the next action.
#[derive(Debug)]
pub struct FlashStep {
    pub events: Vec<FlashEvent>,
    pub action: FlashAction,
}

/// Where the run stands.
#[derive(Clone, Copy, Debug, PartialEq, Eq, Structural)]
pub enum Stage {
    /// Waiting for the diff CRC of `sectors[i]`.
    Plan(usize),
    /// Waiting for the erase ACK of `sectors[i]`.
    Erase(usize),
    /// Waiting for a write ACK of `sectors[i]`; the next chunk starts at
    /// byte `next` of the sector and `done` bytes will be on the device
    /// once the pending chunk lands.
    Write(usize, usize, u32),
    /// Waiting for the post-write CRC of `sectors[i]`.
    Verify(usize),
    /// Waiting for the final verify commit.
    Commit,
    /// The run is over.
    Finished,
}

/// Role chosen for a sector: diff on and matching CRC skips it.
pub open spec fn role_for(diff: bool, device_crc: u32, expected: u32) -> SectorRole {
    if diff && device_crc == expected {
        SectorRole::Skip
    } else {
        SectorRole::Write
    }
}

/// The sectors among the first `k` whose role is `r`, in order.
pub open spec fn with_role(sectors: Seq<u8>, roles: Seq<SectorRole>, r: SectorRole, k: int) -> Seq<u8>
    decreases k,
{
    if k <= 0 {
        Seq::empty()
    } else if roles[k - 1] == r {
        with_role(sectors, roles, r, k - 1).push(sectors[k - 1])
    } else {
        with_role(sectors, roles, r, k - 1)
    }
}

/// The sector span of an image: first sector through last sector.
pub open spec fn span(img: &Image) -> Seq<u8> {
    let first = sector_of_addr_spec(img.base_addr)->0;
    let last = sector_of_addr_spec((img.end_addr_spec() - 1) as u32)->0;
    Seq::new((last - first + 1) as nat, |i: int| (first + i) as u8)
}

/// The padded chunk of `bytes` that starts at `off`.
pub open spec fn chunk_at(bytes: Seq<u8>, off: int, cs: int) -> Seq<u8> {
    pad_spec(bytes.subrange(off, if off + cs <= bytes.len() { off + cs } else { bytes.len() as int }))
}

/// An event that reports a change to the flash: an erase, a written
/// chunk or the final commit.
pub open spec fn touches_flash(e: FlashEvent) -> bool {
    e is Erased || e is ChunkWritten || e is Committing
}

/// None of `events` reports a change to the flash.
pub open spec fn quiet(events: Seq<FlashEvent>) -> bool {
    forall|k: int| 0 <= k < events.len() ==> !touches_flash(#[trigger] events[k])
}

/// Index of the first sector from `k` on planned for rewrite, or the
/// number of sectors when none is.
pub open spec fn next_write(roles: Seq<SectorRole>, k: int) -> int
    decreases roles.len() - k,
{
    if k >= roles.len() {
        roles.len() as int
    } else if roles[k] == SectorRole::Write {
        k
    } else {
        next_write(roles, k + 1)
    }
}

/// One flash run over an image.
pub struct FlashRun<'a> {
    image: &'a Image,
    config: FlashConfig,
    sectors: Vec<u8>,
    roles: Vec<SectorRole>,
    observed: Ghost<Seq<u32>>,
    written: Vec<u8>,
    skipped: Vec<u8>,
    buf: Vec<u8>,
    stage: Stage,
}

impl<'a> FlashRun<'a> {
    pub closed spec fn image_spec(&self) -> &'a Image {
        self.image
    }

    pub closed spec fn config_spec(&self) -> FlashConfig {
        self.config
    }

    pub closed spec fn stage_spec(&self) -> Stage {
        self.stage
    }

    pub closed spec fn sectors_spec(&self) -> Seq<u8> {
        self.sectors@
    }

    pub closed spec fn roles_spec(&self) -> Seq<SectorRole> {
        self.roles@
    }

    /// The CRCs the device reported during the diff, sector by sector.
    pub closed spec fn observed_spec(&self) -> Seq<u32> {
        self.observed@
    }

    /// Number of sectors whose execution is finished.
    pub closed spec fn done_count(&self) -> int {
        match self.stage {
            Stage::Plan(_) => 0,
            Stage::Erase(i) => i as int,
            Stage::Write(i, _, _) => i as int,
            Stage::Verify(i) => i as int,
            _ => self.sectors@.len() as int,
        }
    }

    /// The parts of well-formedness that hold at every stage.
    pub closed spec fn base_inv(&self) -> bool {
        let n = self.sectors@.len();
        let cs = self.config.write_chunk_size;
        &&& flashable(self.image)
        &&& 1 <= cs <= 256
        &&& self.sectors@ == span(self.image)
        &&& 1 <= n <= 6
        &&& forall|i: int| 0 <= i < n ==> sector_in_image(self.image, #[trigger] self.sectors@[i])
        &&& self.observed@.len() == self.roles@.len()
        &&& forall|i: int| 0 <= i < self.roles@.len() ==> #[trigger] self.roles@[i] == role_for(
            self.config.diff,
            self.observed@[i],
            expected_sector_crc_spec(self.image, self.sectors@[i]),
        )
    }

    /// The skip / write lists hold exactly the sectors before index `k`.
    pub closed spec fn lists_at(&self, k: int) -> bool {
        &&& self.skipped@ == with_role(self.sectors@, self.roles@, SectorRole::Skip, k)
        &&& self.written@ == with_role(self.sectors@, self.roles@, SectorRole::Write, k)
    }

    /// Ready to send a chunk of sector index `i`.
    closed spec fn chunk_ready(&self, i: int) -> bool {
        &&& self.base_inv()
        &&& self.roles@.len() == self.sectors@.len()
        &&& 0 <= i < self.sectors@.len()
        &&& self.lists_at(i)
        &&& !self.config.dry_run
        &&& self.roles@[i] == SectorRole::Write
        &&& self.buf@ == sector_bytes_spec(self.image, self.sectors@[i])
    }

    /// Well-formedness of a run that has started.
    pub closed spec fn inv(&self) -> bool {
        let n = self.sectors@.len();
        &&& self.base_inv()
        &&& match self.stage {
            Stage::Plan(i) => self.config.diff && i == self.roles@.len() && i < n,
            _ => self.roles@.len() == n,
        }
        &&& 0 <= self.done_count() <= n
        &&& self.lists_at(self.done_count())
        &&& match self.stage {
            Stage::Erase(i) => {
                &&& !self.config.dry_run
                &&& i < n
                &&& self.roles@[i as int] == SectorRole::Write
            },
            Stage::Write(i, next, done) => {
                &&& self.chunk_ready(i as int)
                &&& 0 < next <= BL_SECTOR_SIZE
                &&& done <= 32 * next
                &&& self.config.write_chunk_size % 32 == 0 ==> done == next && next % 32 == 0
            },
            Stage::Verify(i) => {
                &&& !self.config.dry_run
                &&& self.config.verify_after
                &&& i < n
                &&& self.roles@[i as int] == SectorRole::Write
            },
            Stage::Commit => {
                &&& !self.config.dry_run
                &&& self.config.final_commit
            },
            Stage::Finished => true,
            Stage::Plan(_) => true,
        }
    }

    /// The run is waiting for a reply.
    pub closed spec fn awaiting(&self) -> bool {
        !(self.stage is Finished)
    }

    /// `a` writes the chunk of sector index `i` that starts at byte `off`
    /// of the sector, at `done` bytes past the sector's base.
    pub open spec fn is_chunk_write(&self, a: FlashAction, i: int, off: int, done: int) -> bool {
        a matches FlashAction::Send(FlashCommand::Write { sector, addr, data }) && sector == self.sectors_spec()[i]
            && addr == sector_base_spec(sector) + done && data@ == chunk_at(
            sector_bytes_spec(self.image_spec(), sector),
            off,
            self.config_spec().write_chunk_size as int,
        )
    }

    /// `a` is what the run does once the sectors before index `k` are
    /// done: erase the next sector planned for rewrite; with none left,
    /// send the final commit when it is asked for, else finish.
    pub open spec fn is_advance(&self, a: FlashAction, k: int) -> bool {
        let j = next_write(self.roles_spec(), k);
        if !self.config_spec().dry_run && j < self.sectors_spec().len() {
            a == FlashAction::Send(FlashCommand::Erase {
                sector: self.sectors_spec()[j],
                addr: sector_base_spec(self.sectors_spec()[j]),
                len: BL_SECTOR_SIZE,
            })
        } else if self.config_spec().final_commit && !self.config_spec().dry_run {
            a == FlashAction::Send(FlashCommand::Verify {
                crc: crc32_iso_hdlc(self.image_spec().data@),
                size: self.image_spec().size_spec(),
                version: self.image_spec().packed_version_spec(),
            })
        } else {
            a matches FlashAction::Finished(Ok(_))
        }
    }

    /// What a finished run reports for the sector lists.
    pub open spec fn report_lists_ok(&self, r: FlashReport) -> bool {
        let n = self.sectors_spec().len() as int;
        &&& r.sectors_skipped@ == with_role(self.sectors_spec(), self.roles_spec(), SectorRole::Skip, n)
        &&& r.sectors_written@ == with_role(self.sectors_spec(), self.roles_spec(), SectorRole::Write, n)
        &&& r.sectors_erased@ == Seq::<u8>::empty()
        &&& self.sectors_spec() == span(self.image_spec())
        &&& self.roles_spec().len() == n
        &&& 1 <= n <= 6
        &&& forall|i: int| 0 <= i < n ==> 1 <= #[trigger] self.sectors_spec()[i] <= 6
        &&& self.observed_spec().len() == n
        &&& forall|i: int| 0 <= i < n ==> #[trigger] self.roles_spec()[i] == role_for(
            self.config_spec().diff,
            self.observed_spec()[i],
            expected_sector_crc_spec(self.image_spec(), self.sectors_spec()[i]),
        )
        &&& r.crc32 == crc32_iso_hdlc(self.image_spec().data@)
        &&& r.size == self.image_spec().size_spec()
        &&& r.version == self.image_spec().packed_version_spec()
    }

    /// Guarantees every step gives, over the run after the step.
    pub open spec fn step_ok(&self, step: FlashStep) -> bool {
        &&& self.action_ok(step.action)
        &&& self.config_spec().dry_run ==> quiet(step.events@)
    }

    /// Guarantees of the action a step hands out.
    pub open spec fn action_ok(&self, action: FlashAction) -> bool {
        &&& match action {
            FlashAction::Send(FlashCommand::ReadCrc { sector, addr, len }) => {
                &&& addr == sector_base_spec(sector)
                &&& len == BL_SECTOR_SIZE
                &&& self.sectors_spec().contains(sector)
            },
            FlashAction::Send(FlashCommand::Erase { sector, addr, len }) => {
                &&& !self.config_spec().dry_run
                &&& addr == sector_base_spec(sector)
                &&& len == BL_SECTOR_SIZE
                &&& exists|i: int| 0 <= i < self.roles_spec().len() && self.sectors_spec()[i] == sector
                    && self.roles_spec()[i] == SectorRole::Write
            },
            FlashAction::Send(FlashCommand::Write { sector, addr, data }) => {
                &&& !self.config_spec().dry_run
                &&& exists|i: int| 0 <= i < self.roles_spec().len() && self.sectors_spec()[i] == sector
                    && self.roles_spec()[i] == SectorRole::Write
                &&& exists|off: int| 0 <= off < BL_SECTOR_SIZE && data@ == chunk_at(
                    sector_bytes_spec(self.image_spec(), sector),
                    off,
                    self.config_spec().write_chunk_size as int,
                ) && (self.config_spec().write_chunk_size % 32 == 0 ==> addr == sector_base_spec(sector) + off
                    && off % 32 == 0 && off + data@.len() <= BL_SECTOR_SIZE)
                &&& sector_base_spec(sector) <= addr
                &&& data@.len() % 32 == 0
            },
            FlashAction::Send(FlashCommand::Verify { crc, size, version }) => {
                &&& !self.config_spec().dry_run
                &&& self.config_spec().final_commit
                &&& crc == crc32_iso_hdlc(self.image_spec().data@)
                &&& size == self.image_spec().size_spec()
                &&& version == self.image_spec().packed_version_spec()
            },
            FlashAction::Finished(Ok(r)) => self.report_lists_ok(r) && !self.awaiting(),
            FlashAction::Finished(Err(_)) => !self.awaiting(),
        }
        &&& action is Send ==> self.awaiting() && self.inv()
    }
}


/// A CRC read reply: the little-endian CRC of an ACK of at least four
/// bytes, or the failure it stands for.
pub open spec fn crc_reply_spec(reply: DeviceReply) -> Result<u32, FlashError> {
    match reply {
        DeviceReply::Failed(e) => Err(map_session_err_spec(e)),
        DeviceReply::Ack { opcode_matches, payload, kind } => {
            if !opcode_matches {
                Err(FlashError::UnexpectedReply {
                    expected_opcode: FlashOpcode::FlashReadCrc,
                    detail: "ACK opcode did not match FLASH_READ_CRC",
                })
            } else if payload@.len() < 4 {
                Err(FlashError::UnexpectedReply {
                    expected_opcode: FlashOpcode::FlashReadCrc,
                    detail: "FLASH_READ_CRC ACK shorter than 4 bytes",
                })
            } else {
                Ok(le32(payload@[0], payload@[1], payload@[2], payload@[3]))
            }
        },
        DeviceReply::Nack { rejected_opcode, code } => Err(FlashError::Nack { rejected_opcode, code }),
        DeviceReply::Other { kind } => Err(FlashError::UnexpectedReply {
            expected_opcode: FlashOpcode::FlashReadCrc,
            detail: kind,
        }),
    }
}

/// An erase or write reply: success on a matching ACK.
pub open spec fn ack_reply_spec(reply: DeviceReply, op: FlashOpcode) -> Result<(), FlashError> {
    match reply {
        DeviceReply::Failed(e) => Err(map_session_err_spec(e)),
        DeviceReply::Ack { opcode_matches, kind, .. } => {
            if opcode_matches {
                Ok(())
            } else {
                Err(FlashError::UnexpectedReply { expected_opcode: op, detail: kind })
            }
        },
        DeviceReply::Nack { rejected_opcode, code } => Err(FlashError::Nack { rejected_opcode, code }),
        DeviceReply::Other { kind } => Err(FlashError::UnexpectedReply { expected_opcode: op, detail: kind }),
    }
}

/// The final-commit reply: a CRC-mismatch NACK is a verify mismatch of the
/// values the host sent.
pub open spec fn commit_reply_spec(reply: DeviceReply, crc: u32, size: u32, version: u32) -> Result<(), FlashError> {
    match reply {
        DeviceReply::Nack { code: NackCode::CrcMismatch, .. } => Err(FlashError::FinalVerifyMismatch {
            expected_crc: crc,
            expected_size: size,
            expected_version: version,
        }),
        _ => ack_reply_spec(reply, FlashOpcode::FlashVerify),
    }
}

fn crc_reply(reply: DeviceReply) -> (r: Result<u32, FlashError>)
    ensures
        r == crc_reply_spec(reply),
{
    match reply {
        DeviceReply::Failed(e) => Err(map_session_err(e)),
        DeviceReply::Ack { opcode_matches, payload, kind } => {
            if !opcode_matches {
                Err(FlashError::UnexpectedReply {
                    expected_opcode: FlashOpcode::FlashReadCrc,
                    detail: "ACK opcode did not match FLASH_READ_CRC",
                })
            } else if payload.len() < 4 {
                Err(FlashError::UnexpectedReply {
                    expected_opcode: FlashOpcode::FlashReadCrc,
                    detail: "FLASH_READ_CRC ACK shorter than 4 bytes",
                })
            } else {
                Ok(crate::bytes::le32_of(payload[0], payload[1], payload[2], payload[3]))
            }
        },
        DeviceReply::Nack { rejected_opcode, code } => Err(FlashError::Nack { rejected_opcode, code }),
        DeviceReply::Other { kind } => Err(FlashError::UnexpectedReply {
            expected_opcode: FlashOpcode::FlashReadCrc,
            detail: kind,
        }),
    }
}

fn ack_reply(reply: DeviceReply, op: FlashOpcode) -> (r: Result<(), FlashError>)
    ensures
        r == ack_reply_spec(reply, op),
{
    match reply {
        DeviceReply::Failed(e) => Err(map_session_err(e)),
        DeviceReply::Ack { opcode_matches, kind, .. } => {
            if opcode_matches {
                Ok(())
            } else {
                Err(FlashError::UnexpectedReply { expected_opcode: op, detail: kind })
            }
        },
        DeviceReply::Nack { rejected_opcode, code } => Err(FlashError::Nack { rejected_opcode, code }),
        DeviceReply::Other { kind } => Err(FlashError::UnexpectedReply { expected_opcode: op, detail: kind }),
    }
}

fn commit_reply(reply: DeviceReply, crc: u32, size: u32, version: u32) -> (r: Result<(), FlashError>)
    ensures
        r == commit_reply_spec(reply, crc, size, version),
{
    match reply {
        DeviceReply::Nack { code: NackCode::CrcMismatch, .. } => Err(FlashError::FinalVerifyMismatch {
            expected_crc: crc,
            expected_size: size,
            expected_version: version,
        }),
        other => ack_reply(other, FlashOpcode::FlashVerify),
    }
}

/// Extending the prefix by one sector extends exactly one of the two
/// role lists.
proof fn lemma_with_role_step(sectors: Seq<u8>, roles: Seq<SectorRole>, k: int)
    requires
        0 <= k < roles.len(),
        k < sectors.len(),
    ensures
        with_role(sectors, roles, roles[k], k + 1) == with_role(sectors, roles, roles[k], k).push(sectors[k]),
        roles[k] == SectorRole::Skip ==> with_role(sectors, roles, SectorRole::Write, k + 1)
            == with_role(sectors, roles, SectorRole::Write, k),
        roles[k] == SectorRole::Write ==> with_role(sectors, roles, SectorRole::Skip, k + 1)
            == with_role(sectors, roles, SectorRole::Skip, k),
{
}

/// The role lists only read roles below their prefix length.
proof fn lemma_with_role_prefix(sectors: Seq<u8>, roles: Seq<SectorRole>, more: Seq<SectorRole>, r: SectorRole, k: int)
    requires
        0 <= k <= roles.len(),
        roles.len() <= more.len(),
        forall|i: int| 0 <= i < roles.len() ==> more[i] == roles[i],
    ensures
        with_role(sectors, more, r, k) == with_role(sectors, roles, r, k),
    decreases k,
{
    if k > 0 {
        lemma_with_role_prefix(sectors, roles, more, r, k - 1);
    }
}

/// Every sector listed with a role was given that role.
pub proof fn lemma_with_role_members(sectors: Seq<u8>, roles: Seq<SectorRole>, r: SectorRole, k: int, s: u8)
    requires
        0 <= k <= roles.len(),
        k <= sectors.len(),
        with_role(sectors, roles, r, k).contains(s),
    ensures
        exists|i: int| 0 <= i < k && sectors[i] == s && roles[i] == r,
    decreases k,
{
    if k > 0 {
        if roles[k - 1] == r && sectors[k - 1] == s {
        } else {
            if roles[k - 1] == r {
                let w = with_role(sectors, roles, r, k - 1);
                let wp = w.push(sectors[k - 1]);
                assert(with_role(sectors, roles, r, k) == wp);
                let j = choose|j: int| 0 <= j < wp.len() && #[trigger] wp[j] == s;
                assert(j < w.len());
                assert(w[j] == s);
                assert(w.contains(s));
            }
            lemma_with_role_members(sectors, roles, r, k - 1, s);
        }
    }
}


impl<'a> FlashRun<'a> {
    /// Execution may resume at sector index `k`: planning is complete and
    /// the lists hold exactly the sectors before `k`.
    closed spec fn exec_ready(&self, k: int) -> bool {
        let n = self.sectors@.len();
        let cs = self.config.write_chunk_size;
        &&& flashable(self.image)
        &&& 1 <= cs <= 256
        &&& self.sectors@ == span(self.image)
        &&& 1 <= n <= 6
        &&& forall|i: int| 0 <= i < n ==> sector_in_image(self.image, #[trigger] self.sectors@[i])
        &&& self.observed@.len() == self.roles@.len()
        &&& forall|i: int| 0 <= i < self.roles@.len() ==> #[trigger] self.roles@[i] == role_for(
            self.config.diff,
            self.observed@[i],
            expected_sector_crc_spec(self.image, self.sectors@[i]),
        )
        &&& self.roles@.len() == n
        &&& 0 <= k <= n
        &&& self.skipped@ == with_role(self.sectors@, self.roles@, SectorRole::Skip, k)
        &&& self.written@ == with_role(self.sectors@, self.roles@, SectorRole::Write, k)
    }

    /// Finish successfully: build the report and the `Done` event.
    fn finish_ok(&mut self, events: &mut Vec<FlashEvent>, elapsed: Elapsed) -> (a: FlashAction)
        requires
            old(self).exec_ready(old(self).sectors@.len() as int),
        ensures
            final(self).image == old(self).image,
            final(self).config == old(self).config,
            final(self).sectors@ == old(self).sectors@,
            final(self).roles@ == old(self).roles@,
            final(self).observed@ == old(self).observed@,
            final(self).stage is Finished,
            final(self).action_ok(a),
            a matches FlashAction::Finished(Ok(_)),
            quiet(old(events)@) ==> quiet(final(events)@),
    {
        let mut written: Vec<u8> = Vec::new();
        let mut skipped: Vec<u8> = Vec::new();
        core::mem::swap(&mut written, &mut self.written);
        core::mem::swap(&mut skipped, &mut self.skipped);
        let report = FlashReport {
            sectors_erased: Vec::new(),
            sectors_written: written,
            sectors_skipped: skipped,
            crc32: self.image.crc32(),
            size: self.image.size(),
            version: self.image.packed_version(),
            duration: elapsed,
        };
        let ghost before = events@;
        events.push(FlashEvent::Done { report: report.clone() });
        proof {
            assert forall|k: int| 0 <= k < events@.len() && quiet(before) implies !touches_flash(#[trigger] events@[k]) by {
                if k < before.len() {
                    assert(events@[k] == before[k]);
                }
            }
        }
        self.stage = Stage::Finished;
        FlashAction::Finished(Ok(report))
    }

    /// Finish with an error.
    fn finish_err(&mut self, e: FlashError) -> (a: FlashAction)
        ensures
            final(self).image == old(self).image,
            final(self).config == old(self).config,
            final(self).sectors@ == old(self).sectors@,
            final(self).roles@ == old(self).roles@,
            final(self).observed@ == old(self).observed@,
            final(self).stage is Finished,
            final(self).action_ok(a),
            a == FlashAction::Finished(Err(e)),
    {
        self.stage = Stage::Finished;
        FlashAction::Finished(Err(e))
    }

    /// Walk the plan from sector index `k`: skipped sectors are recorded,
    /// dry-run writes are recorded as written, the first real write sends
    /// its erase; past the last sector comes the commit (or the end).
    fn advance(&mut self, k: usize, events: &mut Vec<FlashEvent>, elapsed: Elapsed) -> (a: FlashAction)
        requires
            old(self).exec_ready(k as int),
        ensures
            final(self).image == old(self).image,
            final(self).config == old(self).config,
            final(self).sectors@ == old(self).sectors@,
            final(self).roles@ == old(self).roles@,
            final(self).observed@ == old(self).observed@,
            final(self).action_ok(a),
            !(a matches FlashAction::Finished(Err(_))),
            old(self).config.dry_run && quiet(old(events)@) ==> quiet(final(events)@),
            final(self).is_advance(a, k as int),
            a matches FlashAction::Send(FlashCommand::Verify { .. }) ==> final(self).stage is Commit,
    {
        let n = self.sectors.len();
        let mut i = k;
        while i < n
            invariant
                self.exec_ready(i as int),
                k <= i <= n,
                n == self.sectors@.len(),
                self.image == old(self).image,
                self.config == old(self).config,
                self.sectors@ == old(self).sectors@,
                self.roles@ == old(self).roles@,
                self.observed@ == old(self).observed@,
                events@ == old(events)@,
                !self.config.dry_run ==> next_write(self.roles@, k as int) == next_write(self.roles@, i as int),
            decreases n - i,
        {
            let sector = self.sectors[i];
            proof {
                lemma_with_role_step(self.sectors@, self.roles@, i as int);
            }
            if self.roles[i] == SectorRole::Skip {
                self.skipped.push(sector);
            } else if self.config.dry_run {
                self.written.push(sector);
            } else {
                self.stage = Stage::Erase(i);
                let addr = sector_base_addr(sector);
                proof {
                    assert(self.sectors@[i as int] == sector);
                }
                return FlashAction::Send(FlashCommand::Erase { sector, addr, len: BL_SECTOR_SIZE });
            }
            i = i + 1;
        }
        if self.config.final_commit && !self.config.dry_run {
            events.push(FlashEvent::Committing);
            self.stage = Stage::Commit;
            let crc = self.image.crc32();
            let size = self.image.size();
            let version = self.image.packed_version();
            FlashAction::Send(FlashCommand::Verify { crc, size, version })
        } else {
            self.finish_ok(events, elapsed)
        }
    }
}


/// Every sector of an in-region, sector-aligned image's span lies within
/// the image.
pub proof fn lemma_span_in_image(img: &Image, i: int)
    requires
        flashable(img),
        img.data@.len() > 0,
        0 <= i < span(img).len(),
    ensures
        sector_in_image(img, span(img)[i]),
        1 <= span(img).len() <= 6,
{
    crate::firmware::lemma_valid_image_sectors_in_app_region(*img);
    let b = img.base_addr as int;
    let e = img.end_addr_spec() as int;
    let first = sector_of_addr_spec(img.base_addr)->0;
    let last = sector_of_addr_spec((img.end_addr_spec() - 1) as u32)->0;
    let s = (first + i) as u8;
    assert(e == b + img.data@.len());
    assert(first == (b - 0x0800_0000) / 0x2_0000);
    assert(last == (e - 1 - 0x0800_0000) / 0x2_0000);
    assert(b % 0x2_0000 == 0);
    assert(0x0800_0000 + first * 0x2_0000 == b) by (nonlinear_arith)
        requires
            first == (b - 0x0800_0000) / 0x2_0000,
            b % 0x2_0000 == 0,
            b >= 0x0800_0000,
    ;
    assert(0x0800_0000 + last * 0x2_0000 <= e - 1) by (nonlinear_arith)
        requires
            last == (e - 1 - 0x0800_0000) / 0x2_0000,
            e - 1 >= 0x0800_0000,
    ;
    assert(sector_base_spec(s) == 0x0800_0000 + s * 0x2_0000);
    assert(0x0800_0000 + s * 0x2_0000 <= 0x0800_0000 + last * 0x2_0000) by (nonlinear_arith)
        requires
            s <= last,
    ;
    assert(0x0800_0000 + first * 0x2_0000 <= 0x0800_0000 + s * 0x2_0000) by (nonlinear_arith)
        requires
            first <= s,
    ;
}

impl<'a> FlashManager<'a> {
    /// Begin a run: with diff on, ask for the first sector's CRC; without
    /// it, plan every sector for rewrite and move on to execution. An
    /// image without a sector range ends the run at once.
    pub fn start(&self, elapsed: Elapsed) -> (r: (FlashRun<'a>, FlashStep))
        requires
            self.image.data@.len() <= u32::MAX,
            flashable(self.image) && has_sector_range(self.image) ==> 1 <= self.config.write_chunk_size <= 256,
        ensures
            r.0.image_spec() == self.image,
            r.0.config_spec() == self.config,
            r.0.step_ok(r.1),
            !has_sector_range(self.image) <==> (r.1.action matches FlashAction::Finished(Err(e))
                && e == (FlashError::InvalidImage { detail: "image has no sector range — empty or out of flash" })),
            has_sector_range(self.image) && !flashable(self.image) <==> (r.1.action matches FlashAction::Finished(
                Err(e),
            ) && e == (FlashError::InvalidImage {
                detail: "image must start on a sector boundary inside the app region",
            })),
            !(flashable(self.image) && has_sector_range(self.image)) ==> r.1.events@.len() == 0,
            flashable(self.image) && has_sector_range(self.image) ==> r.0.sectors_spec() == span(self.image),
            self.config.diff && flashable(self.image) && has_sector_range(self.image) ==> r.0.stage_spec()
                == Stage::Plan(0) && r.0.roles_spec().len() == 0 && r.1.action == FlashAction::Send(
                FlashCommand::ReadCrc {
                    sector: span(self.image)[0],
                    addr: sector_base_spec(span(self.image)[0]),
                    len: BL_SECTOR_SIZE,
                },
            ),
            !self.config.diff && flashable(self.image) && has_sector_range(self.image) ==> r.0.is_advance(
                r.1.action,
                0,
            ),
            !self.config.diff && flashable(self.image) && has_sector_range(self.image) ==> r.0.roles_spec() == Seq::new(
                span(self.image).len(),
                |i: int| SectorRole::Write,
            ),
    {
        let mut events: Vec<FlashEvent> = Vec::new();
        let mut run = FlashRun {
            image: self.image,
            config: self.config,
            sectors: Vec::new(),
            roles: Vec::new(),
            observed: Ghost(Seq::empty()),
            written: Vec::new(),
            skipped: Vec::new(),
            buf: Vec::new(),
            stage: Stage::Finished,
        };
        let range = self.image.sector_range();
        if range.is_none() {
            let a = run.finish_err(
                FlashError::InvalidImage { detail: "image has no sector range — empty or out of flash" },
            );
            return (run, FlashStep { events, action: a });
        }
        if self.image.validate_fits_app_region().is_err() || self.image.base_addr % BL_SECTOR_SIZE != 0 {
            let a = run.finish_err(
                FlashError::InvalidImage { detail: "image must start on a sector boundary inside the app region" },
            );
            return (run, FlashStep { events, action: a });
        }
        proof {
            crate::firmware::lemma_valid_image_sectors_in_app_region(*self.image);
        }
        let first = match sector_of_addr_checked(self.image.base_addr) {
            Some(f) => f,
            None => 1,
        };
        let last = match sector_of_addr_checked(self.image.end_addr() - 1) {
            Some(l) => l,
            None => 1,
        };
        let mut s = first;
        while s <= last
            invariant
                first <= s <= last + 1,
                1 <= first <= last <= 6,
                Some(first) == sector_of_addr_spec(self.image.base_addr),
                Some(last) == sector_of_addr_spec((self.image.end_addr_spec() - 1) as u32),
                run.sectors@ == Seq::new((s - first) as nat, |i: int| (first + i) as u8),
                run.image == self.image,
                run.config == self.config,
                run.roles@.len() == 0,
                run.observed@.len() == 0,
                run.written@.len() == 0,
                run.skipped@.len() == 0,
            decreases last + 1 - s,
        {
            run.sectors.push(s);
            s = s + 1;
            assert(run.sectors@ =~= Seq::new((s - first) as nat, |i: int| (first + i) as u8));
        }
        assert(run.sectors@ =~= span(self.image));
        proof {
            assert forall|i: int| 0 <= i < run.sectors@.len() implies sector_in_image(self.image, #[trigger] run.sectors@[i]) by {
                lemma_span_in_image(self.image, i);
            }
            lemma_span_in_image(self.image, 0);
        }
        if self.config.diff {
            run.stage = Stage::Plan(0);
            let sector = run.sectors[0];
            let addr = sector_base_addr(sector);
            proof {
                assert(run.sectors@.contains(sector)) by {
                    assert(run.sectors@[0] == sector);
                }
                assert(run.skipped@ =~= with_role(run.sectors@, run.roles@, SectorRole::Skip, 0));
                assert(run.written@ =~= with_role(run.sectors@, run.roles@, SectorRole::Write, 0));
                assert(run.inv());
            }
            return (run, FlashStep {
                events,
                action: FlashAction::Send(FlashCommand::ReadCrc { sector, addr, len: BL_SECTOR_SIZE }),
            });
        }
        let n = run.sectors.len();
        let mut i: usize = 0;
        while i < n
            invariant
                i <= n,
                n == run.sectors@.len(),
                !run.config.diff,
                run.roles@ == Seq::new(i as nat, |j: int| SectorRole::Write),
                run.observed@.len() == i,
                run.image == self.image,
                run.config == self.config,
                run.sectors@ == span(self.image),
                1 <= n <= 6,
                forall|k: int| 0 <= k < n ==> sector_in_image(self.image, #[trigger] run.sectors@[k]),
                run.written@.len() == 0,
                run.skipped@.len() == 0,
                quiet(events@),
            decreases n - i,
        {
            let sector = run.sectors[i];
            let ghost before = events@;
            events.push(FlashEvent::PlanningSector { sector, role: SectorRole::Write });
            assert forall|k: int| 0 <= k < events@.len() implies !touches_flash(#[trigger] events@[k]) by {
                if k < before.len() {
                    assert(events@[k] == before[k]);
                }
            }
            run.roles.push(SectorRole::Write);
            run.observed = Ghost(run.observed@.push(0u32));
            i = i + 1;
            assert(run.roles@ =~= Seq::new(i as nat, |j: int| SectorRole::Write));
        }
        assert(run.skipped@ =~= with_role(run.sectors@, run.roles@, SectorRole::Skip, 0));
        assert(run.written@ =~= with_role(run.sectors@, run.roles@, SectorRole::Write, 0));
        assert forall|k: int| 0 <= k < run.roles@.len() implies #[trigger] run.roles@[k] == role_for(
            run.config.diff,
            run.observed@[k],
            expected_sector_crc_spec(run.image, run.sectors@[k]),
        ) by {}
        assert(run.exec_ready(0));
        let a = run.advance(0, &mut events, elapsed);
        (run, FlashStep { events, action: a })
    }
}

/// `sector_of_addr` restated for the span computation.
fn sector_of_addr_checked(addr: u32) -> (r: Option<u8>)
    ensures
        r == sector_of_addr_spec(addr),
{
    crate::firmware::sector_of_addr(addr)
}


/// Bytes of a sector as an owned buffer.
fn owned_bytes(c: Cow<'_, [u8]>) -> (v: Vec<u8>)
    ensures
        v@ == c@,
{
    match c {
        Cow::Borrowed(b) => vstd::slice::slice_to_vec(b),
        Cow::Owned(v) => v,
    }
}

/// Padding a chunk of `c` bytes (1..=256) yields at most `32 * c` and at
/// most 287 bytes, a multiple of 32, and leaves an aligned chunk alone.
proof fn lemma_pad_len(chunk: Seq<u8>)
    requires
        1 <= chunk.len() <= 256,
    ensures
        pad_spec(chunk).len() <= 32 * chunk.len(),
        pad_spec(chunk).len() <= 287,
        pad_spec(chunk).len() % 32 == 0,
        chunk.len() % 32 == 0 ==> pad_spec(chunk) == chunk,
{
}

/// What a run in progress keeps: its span, sectors within the app
/// region, a chunk size of 1..=256, and each planned role following the
/// device's CRC.
pub proof fn lemma_run_facts(run: &FlashRun)
    requires
        run.inv(),
    ensures
        run.sectors_spec() == span(run.image_spec()),
        1 <= run.sectors_spec().len() <= 6,
        forall|i: int| 0 <= i < run.sectors_spec().len() ==> 1 <= #[trigger] run.sectors_spec()[i] <= 6,
        1 <= run.config_spec().write_chunk_size <= 256,
        run.roles_spec().len() <= run.sectors_spec().len(),
        run.observed_spec().len() == run.roles_spec().len(),
        forall|i: int| 0 <= i < run.roles_spec().len() ==> #[trigger] run.roles_spec()[i] == role_for(
            run.config_spec().diff,
            run.observed_spec()[i],
            expected_sector_crc_spec(run.image_spec(), run.sectors_spec()[i]),
        ),
{
    assert forall|i: int| 0 <= i < run.sectors_spec().len() implies 1 <= #[trigger] run.sectors_spec()[i] <= 6 by {
        assert(sector_in_image(run.image_spec(), run.sectors_spec()[i]));
    }
}

/// With a chunk size that is a multiple of 32, a chunk that starts at a
/// multiple of 32 ends at one and needs no padding.
proof fn lemma_aligned_chunk(off: int, cs: int, end: int)
    requires
        off % 32 == 0,
        cs % 32 == 0,
        0 <= off,
        end == (if off + cs <= 0x2_0000 { off + cs } else { 0x2_0000 }),
    ensures
        end % 32 == 0,
        (end - off) % 32 == 0,
{
}

/// A write of a chunk of a sector planned for rewrite is a well-formed
/// action.
proof fn lemma_write_ok(run: &FlashRun, sector: u8, addr: u32, data: Vec<u8>, i: int, off: int)
    requires
        sector_base_spec(sector) <= addr,
        data@.len() % 32 == 0,
        run.config_spec().write_chunk_size % 32 == 0 ==> addr == sector_base_spec(sector) + off && off % 32 == 0
            && off + data@.len() <= BL_SECTOR_SIZE,
        run.inv(),
        run.awaiting(),
        !run.config_spec().dry_run,
        0 <= i < run.roles_spec().len(),
        run.sectors_spec()[i] == sector,
        run.roles_spec()[i] == SectorRole::Write,
        0 <= off < BL_SECTOR_SIZE,
        data@ == chunk_at(sector_bytes_spec(run.image_spec(), sector), off, run.config_spec().write_chunk_size as int),
    ensures
        run.action_ok(FlashAction::Send(FlashCommand::Write { sector, addr, data })),
{
    let a = FlashAction::Send(FlashCommand::Write { sector, addr, data });
    assert(exists|j: int| 0 <= j < run.roles_spec().len() && run.sectors_spec()[j] == sector
        && run.roles_spec()[j] == SectorRole::Write);
    assert(exists|o: int| 0 <= o < BL_SECTOR_SIZE && data@ == chunk_at(
        sector_bytes_spec(run.image_spec(), sector),
        o,
        run.config_spec().write_chunk_size as int,
    ) && (run.config_spec().write_chunk_size % 32 == 0 ==> addr == sector_base_spec(sector) + o && o % 32 == 0
        && o + data@.len() <= BL_SECTOR_SIZE));
    assert(a is Send ==> run.awaiting() && run.inv());
    match a {
        FlashAction::Send(FlashCommand::Write { sector: s2, addr: a2, data: d2 }) => {
            assert(s2 == sector);
            assert(d2@ == data@);
        },
        _ => { assert(false); },
    }
}

impl<'a> FlashRun<'a> {
    /// Send the chunk of the current sector that starts at byte `off`,
    /// `done` bytes having been written before it.
    #[verifier::rlimit(30)]
    fn send_chunk(&mut self, i: usize, off: usize, done: u32) -> (a: FlashAction)
        requires
            old(self).chunk_ready(i as int),
            off < BL_SECTOR_SIZE,
            done <= 32 * off,
            old(self).config.write_chunk_size % 32 == 0 ==> done == off && off % 32 == 0,
        ensures
            final(self).image == old(self).image,
            final(self).config == old(self).config,
            final(self).sectors@ == old(self).sectors@,
            final(self).roles@ == old(self).roles@,
            final(self).observed@ == old(self).observed@,
            final(self).action_ok(a),
            a is Send,
            final(self).is_chunk_write(a, i as int, off as int, done as int),
    {
        let sector = self.sectors[i];
        let cs = self.config.write_chunk_size;
        let end = if off + cs <= BL_SECTOR_SIZE as usize { off + cs } else { BL_SECTOR_SIZE as usize };
        proof {
            assert(self.buf@.len() == BL_SECTOR_SIZE);
        }
        let chunk = vstd::slice::slice_subrange(self.buf.as_slice(), off, end);
        let padded = owned_bytes(pad_to_flashword(chunk));
        proof {
            lemma_pad_len(chunk@);
            assert(chunk@ =~= self.buf@.subrange(off as int, end as int));
            assert(padded@ == chunk_at(sector_bytes_spec(self.image, sector), off as int, cs as int));
            assert(padded@.len() <= 32 * (end - off));
        }
        let addr = sector_base_addr(sector) + done;
        let new_done = done + padded.len() as u32;
        self.stage = Stage::Write(i, end, new_done);
        proof {
            assert(self.sectors@[i as int] == sector);
            assert(self.chunk_ready(i as int));
            assert(0 < end <= BL_SECTOR_SIZE);
            assert(new_done <= 32 * end);
            if cs % 32 == 0 {
                lemma_aligned_chunk(off as int, cs as int, end as int);
            }
            assert(self.done_count() == i);
            assert(self.inv());
            assert(self.awaiting());
            assert(0 <= i < self.roles@.len() && self.sectors@[i as int] == sector
                && self.roles@[i as int] == SectorRole::Write);
        }
        proof {
            lemma_write_ok(self, sector, addr, padded, i as int, off as int);
        }
        FlashAction::Send(FlashCommand::Write { sector, addr, data: padded })
    }

    /// What `resume` guarantees: the run `after` and the step it hands out
    /// once the run `before` got `reply`.
    pub open spec fn resume_ok(before: FlashRun<'a>, reply: DeviceReply, after: FlashRun<'a>, step: FlashStep) -> bool {
        &&& after.image_spec() == before.image_spec()
        &&& after.config_spec() == before.config_spec()
        &&& after.sectors_spec() == before.sectors_spec()
        &&& after.step_ok(step)
        &&& step.action matches FlashAction::Send(FlashCommand::Verify { .. }) ==> after.stage_spec() is Commit
        &&& (!(before.stage_spec() is Plan) ==> after.roles_spec() == before.roles_spec()
            && after.observed_spec() == before.observed_spec())
        &&& (before.stage_spec() matches Stage::Plan(i) ==> match crc_reply_spec(reply) {
            Ok(c) => {
                &&& after.observed_spec() == before.observed_spec().push(c)
                &&& after.roles_spec() == before.roles_spec().push(
                    role_for(true, c, expected_sector_crc_spec(before.image_spec(), before.sectors_spec()[i as int])),
                )
                &&& if i + 1 < before.sectors_spec().len() {
                    &&& after.stage_spec() == Stage::Plan((i + 1) as usize)
                    &&& step.action == FlashAction::Send(FlashCommand::ReadCrc {
                        sector: before.sectors_spec()[i + 1],
                        addr: sector_base_spec(before.sectors_spec()[i + 1]),
                        len: BL_SECTOR_SIZE,
                    })
                } else {
                    after.is_advance(step.action, 0)
                }
            },
            Err(e) => step.action == FlashAction::Finished(Err(e)),
        })
        &&& (before.stage_spec() matches Stage::Erase(i) ==> match ack_reply_spec(reply, FlashOpcode::FlashErase) {
            Ok(()) => after.is_chunk_write(step.action, i as int, 0, 0),
            Err(e) => step.action == FlashAction::Finished(Err(e)),
        })
        &&& (before.stage_spec() matches Stage::Write(i, next, done) ==> match ack_reply_spec(
            reply,
            FlashOpcode::FlashWrite,
        ) {
            Ok(()) => if next < BL_SECTOR_SIZE {
                after.is_chunk_write(step.action, i as int, next as int, done as int)
            } else if before.config_spec().verify_after {
                step.action == FlashAction::Send(FlashCommand::ReadCrc {
                    sector: before.sectors_spec()[i as int],
                    addr: sector_base_spec(before.sectors_spec()[i as int]),
                    len: BL_SECTOR_SIZE,
                })
            } else {
                after.is_advance(step.action, i + 1)
            },
            Err(e) => step.action == FlashAction::Finished(Err(e)),
        })
        &&& (before.stage_spec() matches Stage::Verify(i) ==> match crc_reply_spec(reply) {
            Ok(c) => {
                let expected = expected_sector_crc_spec(before.image_spec(), before.sectors_spec()[i as int]);
                if c == expected {
                    after.is_advance(step.action, i + 1)
                } else {
                    step.action == FlashAction::Finished(
                        Err(FlashError::SectorCrcMismatch { sector: before.sectors_spec()[i as int], expected, got: c }),
                    )
                }
            },
            Err(e) => step.action == FlashAction::Finished(Err(e)),
        })
        &&& (before.stage_spec() is Commit ==> match commit_reply_spec(
            reply,
            crc32_iso_hdlc(before.image_spec().data@),
            before.image_spec().size_spec(),
            before.image_spec().packed_version_spec(),
        ) {
            Ok(()) => step.action matches FlashAction::Finished(Ok(_)),
            Err(e) => step.action == FlashAction::Finished(Err(e)),
        })
    }

    /// Consume the device's reply to the command last handed out.
    #[verifier::rlimit(80)]
    #[verifier::spinoff_prover]
    pub fn resume(&mut self, reply: DeviceReply, elapsed: Elapsed) -> (step: FlashStep)
        requires
            old(self).inv(),
            old(self).awaiting(),
        ensures
            FlashRun::resume_ok(*old(self), reply, *final(self), step),
    {
        let mut events: Vec<FlashEvent> = Vec::new();
        let mgr = FlashManager { image: self.image, config: self.config };
        let n = self.sectors.len();
        let action = match self.stage {
            Stage::Plan(i) => {
                match crc_reply(reply) {
                    Err(e) => self.finish_err(e),
                    Ok(crc) => {
                        let sector = self.sectors[i];
                        let expected = mgr.expected_sector_crc(sector);
                        let role = if crc == expected { SectorRole::Skip } else { SectorRole::Write };
                        events.push(FlashEvent::PlanningSector { sector, role });
                        let ghost old_roles = self.roles@;
                        self.roles.push(role);
                        self.observed = Ghost(self.observed@.push(crc));
                        proof {
                            assert forall|k: int| 0 <= k < self.roles@.len() implies #[trigger] self.roles@[k]
                                == role_for(
                                self.config.diff,
                                self.observed@[k],
                                expected_sector_crc_spec(self.image, self.sectors@[k]),
                            ) by {
                                if k < old_roles.len() {
                                    assert(self.roles@[k] == old_roles[k]);
                                }
                            }
                        }
                        if i + 1 < n {
                            self.stage = Stage::Plan(i + 1);
                            let next = self.sectors[i + 1];
                            let addr = sector_base_addr(next);
                            proof {
                                assert(self.sectors@[i + 1] == next);
                                assert(self.sectors@.contains(next));
                                assert(self.skipped@ =~= with_role(self.sectors@, self.roles@, SectorRole::Skip, 0));
                                assert(self.written@ =~= with_role(self.sectors@, self.roles@, SectorRole::Write, 0));
                                assert(self.inv());
                            }
                            FlashAction::Send(FlashCommand::ReadCrc { sector: next, addr, len: BL_SECTOR_SIZE })
                        } else {
                            proof {
                                assert(self.skipped@ =~= with_role(self.sectors@, self.roles@, SectorRole::Skip, 0));
                                assert(self.written@ =~= with_role(self.sectors@, self.roles@, SectorRole::Write, 0));
                            }
                            self.advance(0, &mut events, elapsed)
                        }
                    },
                }
            },
            Stage::Erase(i) => {
                match ack_reply(reply, FlashOpcode::FlashErase) {
                    Err(e) => self.finish_err(e),
                    Ok(()) => {
                        let sector = self.sectors[i];
                        events.push(FlashEvent::Erased { sector });
                        self.buf = owned_bytes(mgr.sector_bytes(sector));
                        self.send_chunk(i, 0, 0)
                    },
                }
            },
            Stage::Write(i, next, done) => {
                match ack_reply(reply, FlashOpcode::FlashWrite) {
                    Err(e) => self.finish_err(e),
                    Ok(()) => {
                        let sector = self.sectors[i];
                        events.push(FlashEvent::ChunkWritten { sector, bytes: done, total: BL_SECTOR_SIZE });
                        if next < BL_SECTOR_SIZE as usize {
                            self.send_chunk(i, next, done)
                        } else if self.config.verify_after {
                            self.stage = Stage::Verify(i);
                            let addr = sector_base_addr(sector);
                            proof {
                                assert(self.sectors@[i as int] == sector);
                                assert(self.sectors@.contains(sector));
                                assert(self.inv());
                            }
                            FlashAction::Send(FlashCommand::ReadCrc { sector, addr, len: BL_SECTOR_SIZE })
                        } else {
                            proof {
                                lemma_with_role_step(self.sectors@, self.roles@, i as int);
                            }
                            self.written.push(sector);
                            self.advance(i + 1, &mut events, elapsed)
                        }
                    },
                }
            },
            Stage::Verify(i) => {
                match crc_reply(reply) {
                    Err(e) => self.finish_err(e),
                    Ok(crc) => {
                        let sector = self.sectors[i];
                        let expected = mgr.expected_sector_crc(sector);
                        if crc != expected {
                            self.finish_err(FlashError::SectorCrcMismatch { sector, expected, got: crc })
                        } else {
                            events.push(FlashEvent::SectorVerified { sector, crc });
                            proof {
                                lemma_with_role_step(self.sectors@, self.roles@, i as int);
                            }
                            self.written.push(sector);
                            self.advance(i + 1, &mut events, elapsed)
                        }
                    },
                }
            },
            Stage::Commit => {
                let crc = self.image.crc32();
                let size = self.image.size();
                let version = self.image.packed_version();
                match commit_reply(reply, crc, size, version) {
                    Err(e) => self.finish_err(e),
                    Ok(()) => self.finish_ok(&mut events, elapsed),
                }
            },
            Stage::Finished => {
                self.finish_err(FlashError::InvalidImage { detail: "flash run already finished" })
            },
        };
        FlashStep { events, action }
    }
}

} // verus!
