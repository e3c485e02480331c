//! What a relay does over a whole run: which files it has had created,
//! uploaded and deleted after any sequence of reports.

use crate::batch::{lemma_partition_keeps_order, spec_partition};
use crate::relay::{
    inv, lemma_step_keeps_inv, spec_paths, spec_start, spec_step, FetchOutcome, Phase, RelayState,
    Report,
};
use crate::tiklydown::{MediaKind, RelayError};
use vstd::prelude::*;

verus! {

/// The state that a relay reaches from `s` over `reports`.
pub open spec fn spec_run(s: RelayState, reports: Seq<Report>) -> RelayState
    decreases reports.len(),
{
    if reports.len() == 0 {
        s
    } else {
        spec_step(spec_run(s, reports.drop_last()), reports.last())
    }
}

/// `log` with `item` added at its end, if there is one.
pub open spec fn spec_noted<T>(log: Seq<T>, item: Option<T>) -> Seq<T> {
    match item {
        Some(entry) => log.push(entry),
        None => log,
    }
}

/// The file that a report tells to exist: the one of the pending fetch, when
/// the fetch stored it or left a part of it.
pub open spec fn spec_file_created(before: RelayState, report: Report) -> Option<Seq<char>> {
    match (before.phase, report) {
        (Phase::Fetching, Report::Fetched(FetchOutcome::Stored)) => Some(
            before.plan[before.created as int].path,
        ),
        (Phase::Fetching, Report::Fetched(FetchOutcome::Partial)) => Some(
            before.plan[before.created as int].path,
        ),
        _ => None,
    }
}

/// The batch that a report tells to be uploaded: the one of the pending
/// upload, when it went through.
pub open spec fn spec_batch_uploaded(before: RelayState, report: Report) -> Option<Seq<Seq<char>>> {
    match (before.phase, report) {
        (Phase::Uploading, Report::Uploaded(true)) => Some(before.batches[before.uploaded as int]),
        _ => None,
    }
}

/// The file that a report tells to have been handed to deletion: the one of
/// the pending deletion, whether or not it went through.
pub open spec fn spec_file_deleted(before: RelayState, report: Report) -> Option<Seq<char>> {
    match (before.phase, report) {
        (Phase::Deleting, Report::Deleted(_)) => Some(before.plan[before.deleted as int].path),
        _ => None,
    }
}

/// The files that the fetches of a run have created, in the order of their
/// creation.
pub open spec fn spec_created_files(s: RelayState, reports: Seq<Report>) -> Seq<Seq<char>>
    decreases reports.len(),
{
    if reports.len() == 0 {
        Seq::empty()
    } else {
        spec_noted(
            spec_created_files(s, reports.drop_last()),
            spec_file_created(spec_run(s, reports.drop_last()), reports.last()),
        )
    }
}

/// The batches that a run has uploaded, in the order of their upload.
pub open spec fn spec_uploaded_batches(s: RelayState, reports: Seq<Report>) -> Seq<Seq<Seq<char>>>
    decreases reports.len(),
{
    if reports.len() == 0 {
        Seq::empty()
    } else {
        spec_noted(
            spec_uploaded_batches(s, reports.drop_last()),
            spec_batch_uploaded(spec_run(s, reports.drop_last()), reports.last()),
        )
    }
}

/// The files that a run has handed to deletion, in that order.
pub open spec fn spec_deleted_files(s: RelayState, reports: Seq<Report>) -> Seq<Seq<char>>
    decreases reports.len(),
{
    if reports.len() == 0 {
        Seq::empty()
    } else {
        spec_noted(
            spec_deleted_files(s, reports.drop_last()),
            spec_file_deleted(spec_run(s, reports.drop_last()), reports.last()),
        )
    }
}

/// The counters of a state say what the logs hold: the files created are
/// the first `created` of the plan, the batches uploaded the first
/// `uploaded` of the batches, and the files handed to deletion the first
/// `deleted` of the plan.
pub open spec fn spec_accounted(
    s: RelayState,
    created: Seq<Seq<char>>,
    uploaded: Seq<Seq<Seq<char>>>,
    deleted: Seq<Seq<char>>,
) -> bool {
    &&& created == spec_paths(s.plan).take(s.created as int)
    &&& uploaded == s.batches.take(s.uploaded as int)
    &&& deleted == spec_paths(s.plan).take(s.deleted as int)
}

/// One step keeps the account of created files.
proof fn lemma_step_accounts_created(before: RelayState, report: Report, log: Seq<Seq<char>>)
    requires
        inv(before),
        log == spec_paths(before.plan).take(before.created as int),
    ensures
        spec_noted(log, spec_file_created(before, report)) == spec_paths(
            spec_step(before, report).plan,
        ).take(spec_step(before, report).created as int),
{
    let after = spec_step(before, report);
    let next = spec_noted(log, spec_file_created(before, report));
    match before.phase {
        Phase::Fetching => {
            assert(next =~= spec_paths(after.plan).take(after.created as int));
        },
        Phase::Resolving => {
            assert(after.created == 0);
            assert(next =~= spec_paths(after.plan).take(after.created as int));
        },
        _ => {
            assert(after.plan == before.plan && after.created == before.created);
        },
    }
}

/// One step keeps the account of uploaded batches.
proof fn lemma_step_accounts_uploaded(before: RelayState, report: Report, log: Seq<Seq<Seq<char>>>)
    requires
        inv(before),
        log == before.batches.take(before.uploaded as int),
    ensures
        spec_noted(log, spec_batch_uploaded(before, report)) == spec_step(
            before,
            report,
        ).batches.take(spec_step(before, report).uploaded as int),
{
    let after = spec_step(before, report);
    let next = spec_noted(log, spec_batch_uploaded(before, report));
    match before.phase {
        Phase::Uploading => {
            assert(next =~= after.batches.take(after.uploaded as int));
        },
        Phase::Fetching => {
            assert(after.uploaded == 0 && before.uploaded == 0);
            assert(next =~= after.batches.take(after.uploaded as int));
        },
        _ => {
            assert(after.batches == before.batches && after.uploaded == before.uploaded);
        },
    }
}

/// One step keeps the account of files handed to deletion.
proof fn lemma_step_accounts_deleted(before: RelayState, report: Report, log: Seq<Seq<char>>)
    requires
        inv(before),
        log == spec_paths(before.plan).take(before.deleted as int),
    ensures
        spec_noted(log, spec_file_deleted(before, report)) == spec_paths(
            spec_step(before, report).plan,
        ).take(spec_step(before, report).deleted as int),
{
    let after = spec_step(before, report);
    let next = spec_noted(log, spec_file_deleted(before, report));
    match before.phase {
        Phase::Deleting => {
            assert(next =~= spec_paths(after.plan).take(after.deleted as int));
        },
        Phase::Resolving => {
            assert(after.deleted == 0 && before.deleted == 0);
            assert(next =~= spec_paths(after.plan).take(after.deleted as int));
        },
        Phase::Fetching => {
            assert(after.deleted == 0 && before.deleted == 0);
            assert(after.plan == before.plan);
        },
        _ => {
            assert(after.plan == before.plan && after.deleted == before.deleted);
        },
    }
}

/// A run from the start reaches a state of a relay whose counters say what
/// the run has done.
pub proof fn lemma_run_from_start(
    kind: MediaKind,
    user_id: Seq<char>,
    source_url: Seq<char>,
    batch_size: nat,
    reports: Seq<Report>,
)
    requires
        batch_size > 0,
    ensures
        ({
            let start = spec_start(kind, user_id, source_url, batch_size);
            let end = spec_run(start, reports);
            &&& inv(end)
            &&& end.batch_size == batch_size
            &&& spec_accounted(
                end,
                spec_created_files(start, reports),
                spec_uploaded_batches(start, reports),
                spec_deleted_files(start, reports),
            )
        }),
    decreases reports.len(),
{
    let start = spec_start(kind, user_id, source_url, batch_size);
    let end = spec_run(start, reports);
    if reports.len() == 0 {
        assert(spec_created_files(start, reports) =~= spec_paths(end.plan).take(end.created as int));
        assert(spec_uploaded_batches(start, reports) =~= end.batches.take(end.uploaded as int));
        assert(spec_deleted_files(start, reports) =~= spec_paths(end.plan).take(end.deleted as int));
    } else {
        let earlier = reports.drop_last();
        let before = spec_run(start, earlier);
        lemma_run_from_start(kind, user_id, source_url, batch_size, earlier);
        lemma_step_keeps_inv(before, reports.last());
        lemma_step_accounts_created(before, reports.last(), spec_created_files(start, earlier));
        lemma_step_accounts_uploaded(before, reports.last(), spec_uploaded_batches(start, earlier));
        lemma_step_accounts_deleted(before, reports.last(), spec_deleted_files(start, earlier));
    }
}

/// Cleanup: once a run from the start is over, every file that it has had
/// created has been handed to deletion, in the order of creation, whether
/// the relay succeeded or failed.
pub proof fn lemma_finished_run_deleted_its_files(
    kind: MediaKind,
    user_id: Seq<char>,
    source_url: Seq<char>,
    batch_size: nat,
    reports: Seq<Report>,
)
    requires
        batch_size > 0,
        spec_run(spec_start(kind, user_id, source_url, batch_size), reports).phase
            == Phase::Finished,
    ensures
        ({
            let start = spec_start(kind, user_id, source_url, batch_size);
            spec_deleted_files(start, reports) == spec_created_files(start, reports)
        }),
{
    lemma_run_from_start(kind, user_id, source_url, batch_size, reports);
}

/// Batching: a run from the start that ends in success has uploaded the
/// files it created, all of them, cut into batches of `batch_size` in the
/// order of the resolver's answer.
pub proof fn lemma_successful_run_uploaded_in_order(
    kind: MediaKind,
    user_id: Seq<char>,
    source_url: Seq<char>,
    batch_size: nat,
    reports: Seq<Report>,
)
    requires
        batch_size > 0,
        spec_run(spec_start(kind, user_id, source_url, batch_size), reports).phase
            == Phase::Finished,
        spec_run(spec_start(kind, user_id, source_url, batch_size), reports).failure is None,
    ensures
        ({
            let start = spec_start(kind, user_id, source_url, batch_size);
            let end = spec_run(start, reports);
            let files = spec_created_files(start, reports);
            &&& files == spec_paths(end.plan)
            &&& files.len() > 0
            &&& spec_uploaded_batches(start, reports) == spec_partition(files, batch_size)
            &&& spec_uploaded_batches(start, reports).flatten() == files
        }),
{
    let start = spec_start(kind, user_id, source_url, batch_size);
    let end = spec_run(start, reports);
    lemma_run_from_start(kind, user_id, source_url, batch_size, reports);
    assert(spec_paths(end.plan).take(end.created as int) =~= spec_paths(end.plan));
    assert(end.batches.take(end.uploaded as int) =~= end.batches);
    lemma_partition_keeps_order(spec_paths(end.plan), batch_size);
}

/// Uploads never run ahead: whatever a run from the start has uploaded so
/// far is the beginning of the batches of all its planned files, and it has
/// uploaded nothing before every planned file was created.
pub proof fn lemma_uploads_follow_the_plan(
    kind: MediaKind,
    user_id: Seq<char>,
    source_url: Seq<char>,
    batch_size: nat,
    reports: Seq<Report>,
)
    requires
        batch_size > 0,
    ensures
        ({
            let start = spec_start(kind, user_id, source_url, batch_size);
            let end = spec_run(start, reports);
            let uploads = spec_uploaded_batches(start, reports);
            let batches = spec_partition(spec_paths(end.plan), batch_size);
            &&& uploads.len() > 0 ==> spec_created_files(start, reports) == spec_paths(end.plan)
            &&& uploads.len() <= batches.len()
            &&& uploads.len() > 0 ==> uploads == batches.take(uploads.len() as int)
        }),
{
    let start = spec_start(kind, user_id, source_url, batch_size);
    let end = spec_run(start, reports);
    lemma_run_from_start(kind, user_id, source_url, batch_size, reports);
    crate::batch::lemma_partition_count(spec_paths(end.plan), batch_size);
    if spec_uploaded_batches(start, reports).len() > 0 {
        assert(spec_paths(end.plan).take(end.created as int) =~= spec_paths(end.plan));
    } else {
        assert(end.batches.take(end.uploaded as int).len() == 0);
    }
}

/// How far a phase is along the pipeline.
pub open spec fn spec_rank(phase: Phase) -> nat {
    match phase {
        Phase::Acknowledging => 0,
        Phase::Resolving => 1,
        Phase::Fetching => 2,
        Phase::Uploading => 3,
        Phase::Deleting => 4,
        Phase::Finished => 5,
    }
}

/// Order: a step never leads back. A relay acknowledges, then resolves,
/// then fetches, then uploads, then deletes, and may only skip ahead.
pub proof fn lemma_phases_only_advance(s: RelayState, report: Report)
    requires
        inv(s),
    ensures
        spec_rank(s.phase) <= spec_rank(spec_step(s, report).phase),
{
}

/// One of `reports` says that the acknowledgement went through.
pub open spec fn spec_acknowledged(reports: Seq<Report>) -> bool {
    exists|i: int| 0 <= i < reports.len() && #[trigger] reports[i] == Report::Acknowledged(true)
}

/// Acknowledgement first: until a report says that the acknowledgement went
/// through, a run from the start has asked for nothing else, so no request
/// has gone to the resolver, no file exists and nothing was uploaded.
pub proof fn lemma_nothing_before_acknowledgement(
    kind: MediaKind,
    user_id: Seq<char>,
    source_url: Seq<char>,
    batch_size: nat,
    reports: Seq<Report>,
)
    requires
        batch_size > 0,
        !spec_acknowledged(reports),
    ensures
        ({
            let start = spec_start(kind, user_id, source_url, batch_size);
            let end = spec_run(start, reports);
            &&& end.phase == Phase::Acknowledging || end.phase == Phase::Finished
            &&& end.phase == Phase::Finished ==> end.failure == Some(RelayError::AcknowledgeError)
            &&& spec_created_files(start, reports).len() == 0
            &&& spec_uploaded_batches(start, reports).len() == 0
            &&& spec_deleted_files(start, reports).len() == 0
        }),
    decreases reports.len(),
{
    if reports.len() > 0 {
        let earlier = reports.drop_last();
        assert(!spec_acknowledged(earlier)) by {
            if spec_acknowledged(earlier) {
                let i = choose|i: int|
                    0 <= i < earlier.len() && #[trigger] earlier[i] == Report::Acknowledged(true);
                assert(reports[i] == Report::Acknowledged(true));
            }
        }
        lemma_nothing_before_acknowledgement(kind, user_id, source_url, batch_size, earlier);
        lemma_run_from_start(kind, user_id, source_url, batch_size, earlier);
        assert(reports[reports.len() - 1] != Report::Acknowledged(true));
    }
}

/// The first failure stands: once a relay has failed, no later report
/// changes why, so a deletion that fails hides no earlier error.
pub proof fn lemma_first_failure_stands(s: RelayState, report: Report)
    requires
        inv(s),
        s.failure is Some,
    ensures
        spec_step(s, report).failure == s.failure,
{
}

/// A relay ends well only if every file it created was deleted: a run from
/// the start that is over without a failure has left no file behind.
pub proof fn lemma_success_leaves_no_file(
    kind: MediaKind,
    user_id: Seq<char>,
    source_url: Seq<char>,
    batch_size: nat,
    reports: Seq<Report>,
)
    requires
        batch_size > 0,
        spec_run(spec_start(kind, user_id, source_url, batch_size), reports).failure is None,
    ensures
        spec_run(spec_start(kind, user_id, source_url, batch_size), reports).undeleted.len() == 0,
    decreases reports.len(),
{
    if reports.len() > 0 {
        let start = spec_start(kind, user_id, source_url, batch_size);
        let earlier = reports.drop_last();
        lemma_run_from_start(kind, user_id, source_url, batch_size, earlier);
        if spec_run(start, earlier).failure is Some {
            lemma_first_failure_stands(spec_run(start, earlier), reports.last());
        } else {
            lemma_success_leaves_no_file(kind, user_id, source_url, batch_size, earlier);
        }
    }
}

} // verus!
