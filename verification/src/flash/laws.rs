//! Properties of the flash plan that hold for every run.
use vstd::prelude::*;
use super::engine::{
    commit_reply_spec, crc_reply_spec, lemma_run_facts, lemma_span_in_image, lemma_with_role_members, next_write, role_for, span,
    touches_flash, with_role, DeviceReply, FlashAction, FlashCommand, FlashRun, FlashStep, Stage,
};
use super::{flashable, has_sector_range, FlashConfig, FlashReport};
use super::{expected_sector_crc_spec, sector_base_spec, SectorRole};
use crate::firmware::{sector_of_addr_spec, Image, BL_SECTOR_SIZE};

verus! {

/// The diff plan partitions the sectors: every planned sector is either
/// skipped or rewritten, never both, and the two lists together count
/// every sector once.
pub proof fn lemma_roles_partition(sectors: Seq<u8>, roles: Seq<SectorRole>, k: int)
    requires
        0 <= k <= roles.len(),
        k <= sectors.len(),
        forall|i: int, j: int| 0 <= i < j < sectors.len() ==> sectors[i] != sectors[j],
    ensures
        with_role(sectors, roles, SectorRole::Skip, k).len() + with_role(sectors, roles, SectorRole::Write, k).len()
            == k,
        forall|s: u8|
            !(#[trigger] with_role(sectors, roles, SectorRole::Skip, k).contains(s) && with_role(
                sectors,
                roles,
                SectorRole::Write,
                k,
            ).contains(s)),
    decreases k,
{
    if k > 0 {
        lemma_roles_partition(sectors, roles, k - 1);
    }
    assert forall|s: u8|
        !(#[trigger] with_role(sectors, roles, SectorRole::Skip, k).contains(s) && with_role(
            sectors,
            roles,
            SectorRole::Write,
            k,
        ).contains(s)) by {
        if with_role(sectors, roles, SectorRole::Skip, k).contains(s) && with_role(
            sectors,
            roles,
            SectorRole::Write,
            k,
        ).contains(s) {
            lemma_with_role_members(sectors, roles, SectorRole::Skip, k, s);
            lemma_with_role_members(sectors, roles, SectorRole::Write, k, s);
            let i = choose|i: int| 0 <= i < k && sectors[i] == s && roles[i] == SectorRole::Skip;
            let j = choose|j: int| 0 <= j < k && sectors[j] == s && roles[j] == SectorRole::Write;
            assert(i != j);
            if i < j {
                assert(sectors[i] != sectors[j]);
            } else {
                assert(sectors[j] != sectors[i]);
            }
        }
    }
}

/// Every one of the first `k` sectors is in the list of its role.
proof fn lemma_with_role_covers(sectors: Seq<u8>, roles: Seq<SectorRole>, k: int, i: int)
    requires
        0 <= i < k <= roles.len(),
        k <= sectors.len(),
    ensures
        with_role(sectors, roles, roles[i], k).contains(sectors[i]),
    decreases k,
{
    let w = with_role(sectors, roles, roles[i], k - 1);
    if i == k - 1 {
        assert(w.push(sectors[i])[w.len() as int] == sectors[i]);
    } else {
        lemma_with_role_covers(sectors, roles, k - 1, i);
        let j = choose|j: int| 0 <= j < w.len() && w[j] == sectors[i];
        if roles[k - 1] == roles[i] {
            assert(w.push(sectors[k - 1])[j] == sectors[i]);
        }
    }
}

/// The sectors of one role keep the order of the sectors.
proof fn lemma_with_role_ascending(sectors: Seq<u8>, roles: Seq<SectorRole>, r: SectorRole, k: int)
    requires
        0 <= k <= roles.len(),
        k <= sectors.len(),
        forall|i: int, j: int| 0 <= i < j < sectors.len() ==> #[trigger] sectors[i] < #[trigger] sectors[j],
    ensures
        forall|a: int, b: int|
            0 <= a < b < with_role(sectors, roles, r, k).len() ==> #[trigger] with_role(sectors, roles, r, k)[a]
                < #[trigger] with_role(sectors, roles, r, k)[b],
    decreases k,
{
    if k > 0 {
        lemma_with_role_ascending(sectors, roles, r, k - 1);
        let w = with_role(sectors, roles, r, k - 1);
        if roles[k - 1] == r {
            let v = w.push(sectors[k - 1]);
            assert forall|a: int, b: int| 0 <= a < b < v.len() implies #[trigger] v[a] < #[trigger] v[b] by {
                if b == w.len() {
                    assert(w.contains(w[a]));
                    lemma_with_role_members(sectors, roles, r, k - 1, w[a]);
                    let i = choose|i: int| 0 <= i < k - 1 && sectors[i] == w[a] && roles[i] == r;
                    assert(sectors[i] < sectors[k - 1]);
                } else {
                    assert(v[a] == w[a] && v[b] == w[b]);
                }
            }
        }
    }
}

/// The sector lists of a finished run are disjoint: no sector is
/// reported erased (a successful run rewrites every sector it erases),
/// and each sector of the image's span is in exactly one of the written
/// and skipped lists, each of them in ascending order.
pub proof fn lemma_report_lists_disjoint(run: &FlashRun, r: FlashReport)
    requires
        run.action_ok(FlashAction::Finished(Ok(r))),
    ensures
        r.sectors_erased@.len() == 0,
        forall|s: u8| !(#[trigger] r.sectors_written@.contains(s) && r.sectors_skipped@.contains(s)),
        forall|s: u8|
            #[trigger] span(run.image_spec()).contains(s) <==> (r.sectors_written@.contains(s)
                || r.sectors_skipped@.contains(s)),
        forall|a: int, b: int|
            0 <= a < b < r.sectors_written@.len() ==> #[trigger] r.sectors_written@[a] < #[trigger] r.sectors_written@[b],
        forall|a: int, b: int|
            0 <= a < b < r.sectors_skipped@.len() ==> #[trigger] r.sectors_skipped@[a] < #[trigger] r.sectors_skipped@[b],
{
    let sectors = run.sectors_spec();
    let roles = run.roles_spec();
    let n = sectors.len() as int;
    let img = run.image_spec();
    let first = sector_of_addr_spec(img.base_addr)->0;
    assert(sectors[0] == first);
    assert forall|i: int, j: int| 0 <= i < j < sectors.len() implies sectors[i] != sectors[j] by {
        assert(sectors[i] == (first + i) as u8);
        assert(sectors[j] == (first + j) as u8);
    }
    assert forall|i: int, j: int| 0 <= i < j < sectors.len() implies #[trigger] sectors[i] < #[trigger] sectors[j] by {
        assert(sectors[i] == (first + i) as u8);
        assert(sectors[j] == (first + j) as u8);
    }
    lemma_with_role_ascending(sectors, roles, SectorRole::Write, n);
    lemma_with_role_ascending(sectors, roles, SectorRole::Skip, n);
    lemma_roles_partition(sectors, roles, n);
    assert forall|s: u8| #[trigger] span(run.image_spec()).contains(s) <==> (r.sectors_written@.contains(s)
        || r.sectors_skipped@.contains(s)) by {
        if sectors.contains(s) {
            let i = choose|i: int| 0 <= i < sectors.len() && sectors[i] == s;
            lemma_with_role_covers(sectors, roles, n, i);
        }
        if r.sectors_written@.contains(s) {
            lemma_with_role_members(sectors, roles, SectorRole::Write, n, s);
        }
        if r.sectors_skipped@.contains(s) {
            lemma_with_role_members(sectors, roles, SectorRole::Skip, n, s);
        }
    }
}

/// Re-flashing an unchanged image is idempotent: when every sector's
/// on-device CRC matches the image, the diff plans no rewrite, so no
/// sector is erased or written and every sector is reported skipped.
pub proof fn lemma_unchanged_image_rewrites_nothing(
    img: &Image,
    sectors: Seq<u8>,
    observed: Seq<u32>,
    roles: Seq<SectorRole>,
)
    requires
        roles.len() == sectors.len(),
        observed.len() == sectors.len(),
        forall|i: int|
            0 <= i < roles.len() ==> #[trigger] roles[i] == role_for(
                true,
                observed[i],
                expected_sector_crc_spec(img, sectors[i]),
            ),
        forall|i: int| 0 <= i < observed.len() ==> #[trigger] observed[i] == expected_sector_crc_spec(img, sectors[i]),
    ensures
        with_role(sectors, roles, SectorRole::Write, sectors.len() as int) == Seq::<u8>::empty(),
        with_role(sectors, roles, SectorRole::Skip, sectors.len() as int) == sectors,
{
    lemma_all_skip(sectors, roles, sectors.len() as int);
}

proof fn lemma_all_skip(sectors: Seq<u8>, roles: Seq<SectorRole>, k: int)
    requires
        0 <= k <= roles.len(),
        roles.len() == sectors.len(),
        forall|i: int| 0 <= i < roles.len() ==> #[trigger] roles[i] == SectorRole::Skip,
    ensures
        with_role(sectors, roles, SectorRole::Write, k) == Seq::<u8>::empty(),
        with_role(sectors, roles, SectorRole::Skip, k) == sectors.subrange(0, k),
    decreases k,
{
    if k > 0 {
        lemma_all_skip(sectors, roles, k - 1);
        assert(roles[k - 1] == SectorRole::Skip);
        assert(sectors.subrange(0, k - 1).push(sectors[k - 1]) =~= sectors.subrange(0, k));
    } else {
        assert(sectors.subrange(0, 0) =~= Seq::<u8>::empty());
    }
}

/// Without the diff every sector is planned for rewrite.
pub proof fn lemma_no_diff_rewrites_everything(sectors: Seq<u8>, roles: Seq<SectorRole>, observed: Seq<u32>, img: &Image)
    requires
        roles.len() == sectors.len(),
        observed.len() == sectors.len(),
        forall|i: int|
            0 <= i < roles.len() ==> #[trigger] roles[i] == role_for(
                false,
                observed[i],
                expected_sector_crc_spec(img, sectors[i]),
            ),
    ensures
        with_role(sectors, roles, SectorRole::Write, sectors.len() as int) == sectors,
        with_role(sectors, roles, SectorRole::Skip, sectors.len() as int) == Seq::<u8>::empty(),
{
    lemma_all_write(sectors, roles, sectors.len() as int);
}

proof fn lemma_all_write(sectors: Seq<u8>, roles: Seq<SectorRole>, k: int)
    requires
        0 <= k <= roles.len(),
        roles.len() == sectors.len(),
        forall|i: int| 0 <= i < roles.len() ==> #[trigger] roles[i] == SectorRole::Write,
    ensures
        with_role(sectors, roles, SectorRole::Skip, k) == Seq::<u8>::empty(),
        with_role(sectors, roles, SectorRole::Write, k) == sectors.subrange(0, k),
    decreases k,
{
    if k > 0 {
        lemma_all_write(sectors, roles, k - 1);
        assert(roles[k - 1] == SectorRole::Write);
        assert(sectors.subrange(0, k - 1).push(sectors[k - 1]) =~= sectors.subrange(0, k));
    } else {
        assert(sectors.subrange(0, 0) =~= Seq::<u8>::empty());
    }
}

/// A dry run never hands out an erase, a write or the final commit.
pub proof fn lemma_dry_run_touches_nothing(run: &FlashRun, action: FlashAction)
    requires
        run.config_spec().dry_run,
        run.action_ok(action),
    ensures
        !(action matches FlashAction::Send(FlashCommand::Erase { .. })),
        !(action matches FlashAction::Send(FlashCommand::Write { .. })),
        !(action matches FlashAction::Send(FlashCommand::Verify { .. })),
{
}

/// An erase or a write only ever targets a sector the plan marked for
/// rewrite.
pub proof fn lemma_skipped_sectors_untouched(run: &FlashRun, action: FlashAction)
    requires
        run.action_ok(action),
    ensures
        action matches FlashAction::Send(FlashCommand::Erase { sector, .. }) ==> exists|i: int|
            0 <= i < run.roles_spec().len() && run.sectors_spec()[i] == sector && run.roles_spec()[i]
                == SectorRole::Write,
        action matches FlashAction::Send(FlashCommand::Write { sector, .. }) ==> exists|i: int|
            0 <= i < run.roles_spec().len() && run.sectors_spec()[i] == sector && run.roles_spec()[i]
                == SectorRole::Write,
{
}

// ---- Whole runs ----

/// `steps` are the steps of one run and `runs[i]` the run after step `i`:
/// `start` gives the first, `resume` each later one. Each step meets its
/// guarantee over the run after it, and the image, the configuration and
/// the sector span stay those of the first.
pub open spec fn is_run(runs: Seq<FlashRun>, steps: Seq<FlashStep>) -> bool {
    &&& runs.len() == steps.len()
    &&& forall|i: int| 0 <= i < runs.len() ==> (#[trigger] runs[i]).step_ok(steps[i])
    &&& forall|i: int|
        0 <= i < runs.len() ==> (#[trigger] runs[i]).image_spec() == runs[0].image_spec()
            && runs[i].config_spec() == runs[0].config_spec() && runs[i].sectors_spec() == runs[0].sectors_spec()
}

/// A dry run sends no erase, no write and no final commit in any of its
/// steps, and emits no erase, chunk or commit event; when it finishes, nothing is reported erased and the written
/// and skipped lists split the image's sector span between them.
pub proof fn lemma_dry_run_whole(runs: Seq<FlashRun>, steps: Seq<FlashStep>)
    requires
        is_run(runs, steps),
        runs.len() > 0,
        runs[0].config_spec().dry_run,
    ensures
        forall|i: int|
            0 <= i < steps.len() ==> !((#[trigger] steps[i]).action matches FlashAction::Send(FlashCommand::Erase { .. }))
                && !(steps[i].action matches FlashAction::Send(FlashCommand::Write { .. }))
                && !(steps[i].action matches FlashAction::Send(FlashCommand::Verify { .. })),
        forall|i: int, k: int|
            0 <= i < steps.len() && 0 <= k < steps[i].events@.len() ==> !touches_flash(#[trigger] steps[i].events@[k]),
        forall|i: int|
            0 <= i < steps.len() ==> ((#[trigger] steps[i]).action matches FlashAction::Finished(Ok(r)) ==> {
                &&& r.sectors_erased@.len() == 0
                &&& forall|s: u8| !(r.sectors_written@.contains(s) && r.sectors_skipped@.contains(s))
                &&& forall|s: u8|
                    span(runs[0].image_spec()).contains(s) <==> (r.sectors_written@.contains(s)
                        || r.sectors_skipped@.contains(s))
            }),
{
    assert forall|i: int| 0 <= i < steps.len() implies ((#[trigger] steps[i]).action matches FlashAction::Finished(
        Ok(r),
    ) ==> {
        &&& r.sectors_erased@.len() == 0
        &&& forall|s: u8| !(r.sectors_written@.contains(s) && r.sectors_skipped@.contains(s))
        &&& forall|s: u8|
            span(runs[0].image_spec()).contains(s) <==> (r.sectors_written@.contains(s)
                || r.sectors_skipped@.contains(s))
    }) by {
        assert(runs[i].step_ok(steps[i]));
        if let FlashAction::Finished(Ok(r)) = steps[i].action {
            lemma_report_lists_disjoint(&runs[i], r);
        }
    }
    assert forall|i: int| 0 <= i < steps.len() implies !((#[trigger] steps[i]).action matches FlashAction::Send(
        FlashCommand::Erase { .. },
    )) && !(steps[i].action matches FlashAction::Send(FlashCommand::Write { .. })) && !(steps[i].action matches FlashAction::Send(
        FlashCommand::Verify { .. },
    )) by {
        assert(runs[i].step_ok(steps[i]));
        lemma_dry_run_touches_nothing(&runs[i], steps[i].action);
    }
    assert forall|i: int, k: int|
        0 <= i < steps.len() && 0 <= k < steps[i].events@.len() implies !touches_flash(#[trigger] steps[i].events@[k]) by {
        assert(runs[i].step_ok(steps[i]));
    }
}

/// Re-flashing an unchanged image, with the diff on, skips it entirely:
/// when the device answers every CRC read with the image's own CRC of
/// that sector, no step erases or writes, and a finished run reports no
/// sector erased or written and every sector of the span skipped.
pub proof fn lemma_unchanged_image_whole(runs: Seq<FlashRun>, steps: Seq<FlashStep>)
    requires
        is_run(runs, steps),
        runs.len() > 0,
        runs[0].config_spec().diff,
        forall|i: int, k: int|
            0 <= i < runs.len() && 0 <= k < runs[i].observed_spec().len() ==> #[trigger] runs[i].observed_spec()[k]
                == expected_sector_crc_spec(runs[0].image_spec(), runs[0].sectors_spec()[k]),
    ensures
        forall|i: int|
            0 <= i < steps.len() ==> !((#[trigger] steps[i]).action matches FlashAction::Send(FlashCommand::Erase { .. }))
                && !(steps[i].action matches FlashAction::Send(FlashCommand::Write { .. })),
        forall|i: int|
            0 <= i < steps.len() ==> ((#[trigger] steps[i]).action matches FlashAction::Finished(Ok(r)) ==> {
                &&& r.sectors_erased@.len() == 0
                &&& r.sectors_written@.len() == 0
                &&& r.sectors_skipped@ == span(runs[0].image_spec())
            }),
{
    assert forall|i: int| 0 <= i < steps.len() implies !((#[trigger] steps[i]).action matches FlashAction::Send(
        FlashCommand::Erase { .. },
    )) && !(steps[i].action matches FlashAction::Send(FlashCommand::Write { .. })) by {
        let run = runs[i];
        assert(run.step_ok(steps[i]));
        if steps[i].action is Send {
            lemma_run_facts(&run);
            match steps[i].action {
                FlashAction::Send(FlashCommand::Erase { sector, .. }) => {
                    let j = choose|j: int| 0 <= j < run.roles_spec().len() && run.sectors_spec()[j] == sector
                        && run.roles_spec()[j] == SectorRole::Write;
                    assert(run.observed_spec()[j] == expected_sector_crc_spec(runs[0].image_spec(), runs[0].sectors_spec()[j]));
                },
                FlashAction::Send(FlashCommand::Write { sector, .. }) => {
                    let j = choose|j: int| 0 <= j < run.roles_spec().len() && run.sectors_spec()[j] == sector
                        && run.roles_spec()[j] == SectorRole::Write;
                    assert(run.observed_spec()[j] == expected_sector_crc_spec(runs[0].image_spec(), runs[0].sectors_spec()[j]));
                },
                _ => {},
            }
        }
    }
    assert forall|i: int| 0 <= i < steps.len() implies ((#[trigger] steps[i]).action matches FlashAction::Finished(
        Ok(r),
    ) ==> {
        &&& r.sectors_erased@.len() == 0
        &&& r.sectors_written@.len() == 0
        &&& r.sectors_skipped@ == span(runs[0].image_spec())
    }) by {
        let run = runs[i];
        assert(run.step_ok(steps[i]));
        if let FlashAction::Finished(Ok(r)) = steps[i].action {
            let sectors = run.sectors_spec();
            let roles = run.roles_spec();
            assert forall|k: int| 0 <= k < roles.len() implies #[trigger] roles[k] == SectorRole::Skip by {
                assert(run.observed_spec()[k] == expected_sector_crc_spec(runs[0].image_spec(), runs[0].sectors_spec()[k]));
            }
            lemma_all_skip(sectors, roles, sectors.len() as int);
            assert(sectors.subrange(0, sectors.len() as int) =~= sectors);
        }
    }
}

/// Every command a run sends names a sector of the image's span in the
/// app region: a CRC read or an erase covers exactly that sector
/// (`0x0802_0000 + (s - 1) * 0x2_0000`, `0x2_0000` bytes); a write lands
/// at or past the start of its sector with a length that is a multiple
/// of 32, and, when the chunk size is a multiple of 32, inside the
/// sector.
pub proof fn lemma_run_commands(runs: Seq<FlashRun>, steps: Seq<FlashStep>)
    requires
        is_run(runs, steps),
    ensures
        forall|i: int|
            0 <= i < steps.len() ==> match (#[trigger] steps[i]).action {
                FlashAction::Send(FlashCommand::ReadCrc { sector, addr, len }) => {
                    &&& span(runs[i].image_spec()).contains(sector)
                    &&& 1 <= sector <= 6
                    &&& addr == 0x0802_0000 + (sector - 1) * 0x2_0000
                    &&& len == 0x2_0000
                },
                FlashAction::Send(FlashCommand::Erase { sector, addr, len }) => {
                    &&& span(runs[i].image_spec()).contains(sector)
                    &&& 1 <= sector <= 6
                    &&& addr == 0x0802_0000 + (sector - 1) * 0x2_0000
                    &&& len == 0x2_0000
                },
                FlashAction::Send(FlashCommand::Write { sector, addr, data }) => {
                    &&& span(runs[i].image_spec()).contains(sector)
                    &&& 1 <= sector <= 6
                    &&& 0x0802_0000 + (sector - 1) * 0x2_0000 <= addr
                    &&& data@.len() % 32 == 0
                    &&& runs[i].config_spec().write_chunk_size % 32 == 0 ==> addr + data@.len() <= 0x0802_0000
                        + sector * 0x2_0000
                },
                _ => true,
            },
{
    assert forall|i: int| 0 <= i < steps.len() implies match (#[trigger] steps[i]).action {
        FlashAction::Send(FlashCommand::ReadCrc { sector, addr, len }) => {
            &&& span(runs[i].image_spec()).contains(sector)
            &&& 1 <= sector <= 6
            &&& addr == 0x0802_0000 + (sector - 1) * 0x2_0000
            &&& len == 0x2_0000
        },
        FlashAction::Send(FlashCommand::Erase { sector, addr, len }) => {
            &&& span(runs[i].image_spec()).contains(sector)
            &&& 1 <= sector <= 6
            &&& addr == 0x0802_0000 + (sector - 1) * 0x2_0000
            &&& len == 0x2_0000
        },
        FlashAction::Send(FlashCommand::Write { sector, addr, data }) => {
            &&& span(runs[i].image_spec()).contains(sector)
            &&& 1 <= sector <= 6
            &&& 0x0802_0000 + (sector - 1) * 0x2_0000 <= addr
            &&& data@.len() % 32 == 0
            &&& runs[i].config_spec().write_chunk_size % 32 == 0 ==> addr + data@.len() <= 0x0802_0000 + sector
                * 0x2_0000
        },
        _ => true,
    } by {
        let run = runs[i];
        assert(run.step_ok(steps[i]));
        if steps[i].action is Send {
            lemma_run_facts(&run);
            let sectors = run.sectors_spec();
            match steps[i].action {
                FlashAction::Send(FlashCommand::ReadCrc { sector, addr, len }) => {
                    let j = choose|j: int| 0 <= j < sectors.len() && sectors[j] == sector;
                    assert(1 <= sectors[j] <= 6);
                    lemma_sector_base(sector);
                },
                FlashAction::Send(FlashCommand::Erase { sector, addr, len }) => {
                    let j = choose|j: int| 0 <= j < run.roles_spec().len() && sectors[j] == sector
                        && run.roles_spec()[j] == SectorRole::Write;
                    assert(1 <= sectors[j] <= 6);
                    assert(sectors.contains(sector));
                    lemma_sector_base(sector);
                },
                FlashAction::Send(FlashCommand::Write { sector, addr, data }) => {
                    let j = choose|j: int| 0 <= j < run.roles_spec().len() && sectors[j] == sector
                        && run.roles_spec()[j] == SectorRole::Write;
                    assert(1 <= sectors[j] <= 6);
                    assert(sectors.contains(sector));
                    lemma_sector_base(sector);
                },
                _ => {},
            }
        }
    }
}

proof fn lemma_sector_base(sector: u8)
    requires
        1 <= sector <= 6,
    ensures
        sector_base_spec(sector) == 0x0802_0000 + (sector - 1) * 0x2_0000,
        sector_base_spec(sector) + BL_SECTOR_SIZE == 0x0802_0000 + sector * 0x2_0000,
{
}

/// A dry run with the diff off sends nothing at all: once planned, with
/// no sector to read, erase or write and no commit to send, its first
/// step (what `start` hands out) already finishes `Ok`.
pub proof fn lemma_dry_run_without_diff_sends_nothing(run: &FlashRun, action: FlashAction)
    requires
        run.config_spec().dry_run,
        run.is_advance(action, 0),
    ensures
        action matches FlashAction::Finished(Ok(_)),
{
}

// ---- An unchanged image, start to finish ----

/// `runs[i + 1]` and `steps[i + 1]` are what `resume` gave on `runs[i]`
/// with the device's reply `replies[i]`.
pub open spec fn is_resumed_run(runs: Seq<FlashRun>, steps: Seq<FlashStep>, replies: Seq<DeviceReply>) -> bool {
    &&& runs.len() == steps.len()
    &&& steps.len() == replies.len() + 1
    &&& forall|i: int|
        0 <= i < replies.len() ==> #[trigger] FlashRun::resume_ok(runs[i], replies[i], runs[i + 1], steps[i + 1])
}

/// The device reports, for each sector whose CRC is read, the CRC of the
/// image's bytes there, and acknowledges the final commit.
pub open spec fn device_agrees(img: &Image, steps: Seq<FlashStep>, replies: Seq<DeviceReply>) -> bool {
    forall|i: int|
        0 <= i < replies.len() ==> match (#[trigger] steps[i]).action {
            FlashAction::Send(FlashCommand::ReadCrc { sector, .. }) => crc_reply_spec(replies[i]) == Ok::<
                u32,
                super::FlashError,
            >(expected_sector_crc_spec(img, sector)),
            FlashAction::Send(FlashCommand::Verify { crc, size, version }) => commit_reply_spec(
                replies[i],
                crc,
                size,
                version,
            ) == Ok::<(), super::FlashError>(()),
            _ => true,
        }
}

/// `a` sends a CRC read or the final commit: no erase, no write.
pub open spec fn reads_or_commits(a: FlashAction) -> bool {
    a matches FlashAction::Send(c) && (c is ReadCrc || c is Verify)
}

proof fn lemma_next_write_all_skip(roles: Seq<SectorRole>, k: int)
    requires
        0 <= k <= roles.len(),
        forall|i: int| 0 <= i < roles.len() ==> #[trigger] roles[i] == SectorRole::Skip,
    ensures
        next_write(roles, k) == roles.len(),
    decreases roles.len() - k,
{
    if k < roles.len() {
        lemma_next_write_all_skip(roles, k + 1);
    }
}

/// The planning phase of a run started with the diff on, against a device
/// that agrees: after `i` replies the run reads sector `i`'s CRC and has
/// planned the sectors before it for skipping.
proof fn lemma_unchanged_plan(
    img: &Image,
    runs: Seq<FlashRun>,
    steps: Seq<FlashStep>,
    replies: Seq<DeviceReply>,
    i: int,
)
    requires
        is_resumed_run(runs, steps, replies),
        device_agrees(img, steps, replies),
        runs[0].image_spec() == img,
        runs[0].sectors_spec() == span(img),
        runs[0].stage_spec() == Stage::Plan(0),
        runs[0].roles_spec().len() == 0,
        steps[0].action == FlashAction::Send(
            FlashCommand::ReadCrc { sector: span(img)[0], addr: sector_base_spec(span(img)[0]), len: BL_SECTOR_SIZE },
        ),
        0 <= i < span(img).len(),
        span(img).len() <= 6,
        i < runs.len(),
    ensures
        runs[i].image_spec() == img,
        runs[i].config_spec() == runs[0].config_spec(),
        runs[i].sectors_spec() == span(img),
        runs[i].stage_spec() == Stage::Plan(i as usize),
        runs[i].roles_spec() == Seq::new(i as nat, |j: int| SectorRole::Skip),
        steps[i].action == FlashAction::Send(
            FlashCommand::ReadCrc { sector: span(img)[i], addr: sector_base_spec(span(img)[i]), len: BL_SECTOR_SIZE },
        ),
    decreases i,
{
    if i == 0 {
        assert(runs[0].roles_spec() =~= Seq::new(0, |j: int| SectorRole::Skip));
    } else {
        lemma_unchanged_plan(img, runs, steps, replies, i - 1);
        let k = i - 1;
        assert(FlashRun::resume_ok(runs[k], replies[k], runs[k + 1], steps[k + 1]));
        assert(crc_reply_spec(replies[k]) == Ok::<u32, super::FlashError>(expected_sector_crc_spec(img, span(img)[k])));
        assert(runs[i].roles_spec() =~= Seq::new(i as nat, |j: int| SectorRole::Skip));
    }
}

/// Re-flashing an unchanged image with the diff on runs to the end: when
/// the device reports each sector's CRC as the image's own and
/// acknowledges the commit, the run reads the CRC of every sector of the
/// span in order, sends the final commit when it is asked for, never
/// erases or writes, and finishes `Ok` with every sector skipped and none
/// erased or written.
pub proof fn lemma_unchanged_image_finishes(
    img: &Image,
    config: FlashConfig,
    runs: Seq<FlashRun>,
    steps: Seq<FlashStep>,
    replies: Seq<DeviceReply>,
)
    requires
        config.diff,
        flashable(img),
        has_sector_range(img),
        is_resumed_run(runs, steps, replies),
        device_agrees(img, steps, replies),
        runs[0].image_spec() == img,
        runs[0].config_spec() == config,
        runs[0].sectors_spec() == span(img),
        runs[0].stage_spec() == Stage::Plan(0),
        runs[0].roles_spec().len() == 0,
        steps[0].action == FlashAction::Send(
            FlashCommand::ReadCrc { sector: span(img)[0], addr: sector_base_spec(span(img)[0]), len: BL_SECTOR_SIZE },
        ),
    ensures
        ({
            let n = span(img).len() as int;
            let k = if config.final_commit && !config.dry_run { n + 1 } else { n };
            &&& forall|i: int|
                0 <= i < steps.len() && i < k ==> reads_or_commits((#[trigger] steps[i]).action)
            &&& steps.len() > k ==> (steps[k].action matches FlashAction::Finished(Ok(r)) && r.sectors_erased@.len()
                == 0 && r.sectors_written@.len() == 0 && r.sectors_skipped@ == span(img))
        }),
{
    lemma_span_in_image(img, 0);
    let n = span(img).len() as int;
    let commit = config.final_commit && !config.dry_run;
    let k = if commit { n + 1 } else { n };
    let all_skip = Seq::new(n as nat, |j: int| SectorRole::Skip);
    if steps.len() > n {
        lemma_unchanged_plan(img, runs, steps, replies, n - 1);
        let m = n - 1;
        assert(FlashRun::resume_ok(runs[m], replies[m], runs[m + 1], steps[m + 1]));
        assert(crc_reply_spec(replies[m]) == Ok::<u32, super::FlashError>(expected_sector_crc_spec(img, span(img)[m])));
        assert(runs[n].roles_spec() =~= all_skip);
        lemma_next_write_all_skip(all_skip, 0);
        assert(runs[n].is_advance(steps[n].action, 0));
        lemma_all_skip(span(img), all_skip, n);
        assert(span(img).subrange(0, n) =~= span(img));
        if commit {
            assert(steps[n].action == FlashAction::Send(FlashCommand::Verify {
                crc: crate::firmware::crc32_iso_hdlc(img.data@),
                size: img.size_spec(),
                version: img.packed_version_spec(),
            }));
            if steps.len() > n + 1 {
                assert(FlashRun::resume_ok(runs[n], replies[n], runs[n + 1], steps[n + 1]));
                assert(runs[n].stage_spec() is Commit);
                assert(runs[n + 1].roles_spec() == runs[n].roles_spec());
                assert(runs[n + 1].step_ok(steps[n + 1]));
            }
        } else {
            assert(runs[n].step_ok(steps[n]));
        }
    }
    assert forall|i: int|
        0 <= i < steps.len() && i < k implies reads_or_commits((#[trigger] steps[i]).action) by {
        if i < n {
            lemma_unchanged_plan(img, runs, steps, replies, i);
        } else {
            let m = n - 1;
            lemma_unchanged_plan(img, runs, steps, replies, m);
            assert(FlashRun::resume_ok(runs[m], replies[m], runs[m + 1], steps[m + 1]));
            assert(crc_reply_spec(replies[m]) == Ok::<u32, super::FlashError>(expected_sector_crc_spec(img, span(img)[m])));
            assert(runs[n].roles_spec() =~= all_skip);
            lemma_next_write_all_skip(all_skip, 0);
        }
    }
}

} // verus!
