//! What holds of every run, whatever the outside world answers.
//!
//! The laws speak of the runs as the contracts see them: of
//! [`RunView::step`], which [`Run::advance`](crate::driver::Run::advance)
//! follows, and of the actions that [`RunView::pending`] asks for.

use crate::driver::{
    failures_among, selection, Mode, PhaseView, RecordView, RunErrorView, RunView,
};
use crate::exchange::{ActionView, EventView, ExitStatus, ScanEntryView};
use crate::optimizer::{
    lemma_job_follows_conditions, lemma_step_keeps_wf, Conditions, JobView, OptimizeErrorView,
    Optimized,
};
use crate::paths::is_candidate_path;
use vstd::prelude::*;

verus! {

/// Running a run over two runs of events in turn is running it over both at
/// once.
pub proof fn lemma_run_concat(run: RunView, first: Seq<EventView>, second: Seq<EventView>)
    ensures
        run.run(first + second) == run.run(first).run(second),
    decreases first.len(),
{
    if first.len() > 0 {
        assert((first + second).drop_first() =~= first.drop_first() + second);
        lemma_run_concat(run.step(first.first()), first.drop_first(), second);
    }
}

/// Every step keeps a run well formed.
pub proof fn lemma_run_step_keeps_wf(run: RunView, event: EventView)
    requires
        run.wf(),
    ensures
        run.step(event).wf(),
        run.step(event).target == run.target,
{
    if let PhaseView::Processing { job, .. } = run.phase {
        lemma_step_keeps_wf(job, event);
    }
}

/// Every run that starts from a target, or from none, is well formed after
/// any events.
pub proof fn lemma_reachable_is_wf(target: Option<Seq<char>>, events: Seq<EventView>)
    ensures
        RunView::start(target).run(events).wf(),
{
    lemma_run_keeps_wf(RunView::start(target), events);
}

/// Any events keep a run well formed, and leave its target as it is.
pub proof fn lemma_run_keeps_wf(run: RunView, events: Seq<EventView>)
    requires
        run.wf(),
    ensures
        run.run(events).wf(),
        run.run(events).target == run.target,
    decreases events.len(),
{
    if events.len() > 0 {
        lemma_run_step_keeps_wf(run, events.first());
        lemma_run_keeps_wf(run.step(events.first()), events.drop_first());
    }
}

/// A run that is over stays as it is: it asks for its exit and for nothing
/// else, whatever is reported to it.
pub proof fn lemma_finished_stays(run: RunView, events: Seq<EventView>)
    requires
        run.phase is Finished,
    ensures
        run.run(events) == run,
        run.run(events).pending() == Some(ActionView::Exit { status: run.status()->0 }),
    decreases events.len(),
{
    if events.len() > 0 {
        lemma_finished_stays(run, events.drop_first());
    }
}

/// Once the candidates are taken up, their number is fixed: whatever happens
/// to the single files, the candidates and the total stay what they were.
pub proof fn lemma_candidates_are_fixed(run: RunView, events: Seq<EventView>)
    requires
        run.wf(),
        run.phase is Processing || run.phase is Finished,
    ensures
        run.run(events).candidates == run.candidates,
        run.run(events).summary.total == run.summary.total,
        run.run(events).phase is Processing || run.run(events).phase is Finished,
        run.summary.records.len() <= run.run(events).summary.records.len(),
    decreases events.len(),
{
    if events.len() > 0 {
        lemma_run_step_keeps_wf(run, events.first());
        lemma_candidates_are_fixed(run.step(events.first()), events.drop_first());
    }
}

/// A run on a directory counts its candidates before it works on the first
/// of them, and ends only when it has worked on each: whatever is reported
/// after the scan, the total is the number of candidates that the scan gave;
/// the run never has more records than that; and once it is over, it has
/// ended in success with exactly as many records as candidates.
pub proof fn lemma_processed_count_is_total(
    target: Seq<char>,
    entries: Seq<ScanEntryView>,
    events: Seq<EventView>,
)
    requires
        selection(entries) is Ok,
    ensures
        ({
            let inspected = RunView::start(Some(target)).step(
                EventView::Inspected { exists: true, is_file: false, is_directory: true },
            );
            let scanned = inspected.step(EventView::Scanned { entries });
            let end = scanned.run(events);
            &&& inspected.pending() == Some(
                ActionView::Scan { pattern: crate::paths::scan_pattern_of(target) },
            )
            &&& end.candidates == selection(entries)->Ok_0
            &&& end.summary.total == selection(entries)->Ok_0.len()
            &&& end.summary.records.len() <= end.summary.total
            &&& end.phase is Finished ==> {
                &&& end.status() == Some(ExitStatus::Success)
                &&& end.summary.records.len() == end.summary.total
            }
        }),
{
    let start = RunView::start(Some(target));
    let inspected = start.step(
        EventView::Inspected { exists: true, is_file: false, is_directory: true },
    );
    let scanned = inspected.step(EventView::Scanned { entries });
    lemma_run_step_keeps_wf(
        start,
        EventView::Inspected { exists: true, is_file: false, is_directory: true },
    );
    lemma_run_step_keeps_wf(inspected, EventView::Scanned { entries });
    lemma_candidates_are_fixed(scanned, events);
    lemma_run_keeps_wf(scanned, events);
    lemma_batch_never_fails(scanned, events);
}

/// A run in batch mode stays in batch mode, and ends without a failure if it
/// ends.
proof fn lemma_batch_never_fails(run: RunView, events: Seq<EventView>)
    requires
        run.wf(),
        run.phase matches PhaseView::Processing { mode, .. } ==> mode == Mode::Batch,
        run.phase matches PhaseView::Finished { failure } ==> failure is None,
        run.phase is Processing || run.phase is Finished,
    ensures
        run.run(events).phase matches PhaseView::Finished { failure } ==> failure is None,
    decreases events.len(),
{
    if events.len() > 0 {
        lemma_run_step_keeps_wf(run, events.first());
        lemma_batch_never_fails(run.step(events.first()), events.drop_first());
    }
}

/// A run on a file that is not of the target format is refused before
/// anything is changed: the run asks for the inspection of its target, then
/// ends with the status of an unsupported kind, and from then on asks for
/// its exit only. No tool is run, nothing is removed or renamed.
pub proof fn lemma_unsupported_file_is_refused(
    target: Seq<char>,
    is_directory: bool,
    events: Seq<EventView>,
)
    requires
        !is_candidate_path(target),
    ensures
        ({
            let start = RunView::start(Some(target));
            let inspected = start.step(
                EventView::Inspected { exists: true, is_file: true, is_directory },
            );
            &&& start.pending() == Some(ActionView::Inspect { path: target })
            &&& inspected == RunView::ended(target, Some(RunErrorView::UnsupportedFileKind))
            &&& inspected.run(events).status() == Some(ExitStatus::UnsupportedKind)
            &&& inspected.run(events).pending() == Some(
                ActionView::Exit { status: ExitStatus::UnsupportedKind },
            )
            &&& inspected.run(events).summary.records.len() == 0
        }),
{
    let inspected = RunView::start(Some(target)).step(
        EventView::Inspected { exists: true, is_file: true, is_directory },
    );
    lemma_finished_stays(inspected, events);
}

/// A run on a target that does not exist ends before anything is scanned:
/// the run asks for the inspection of its target, then ends with the status
/// of a target not found, and from then on asks for its exit only.
pub proof fn lemma_missing_target_is_refused(
    target: Seq<char>,
    is_file: bool,
    is_directory: bool,
    events: Seq<EventView>,
)
    ensures
        ({
            let start = RunView::start(Some(target));
            let inspected = start.step(
                EventView::Inspected { exists: false, is_file, is_directory },
            );
            &&& start.pending() == Some(ActionView::Inspect { path: target })
            &&& inspected == RunView::ended(target, Some(RunErrorView::TargetNotFound))
            &&& inspected.run(events).status() == Some(ExitStatus::TargetNotFound)
            &&& inspected.run(events).pending() == Some(
                ActionView::Exit { status: ExitStatus::TargetNotFound },
            )
        }),
{
    let inspected = RunView::start(Some(target)).step(
        EventView::Inspected { exists: false, is_file, is_directory },
    );
    lemma_finished_stays(inspected, events);
}

/// The events of a batch: those of its first file, then those of the next,
/// and so on.
pub open spec fn batch_events(conditions: Seq<Conditions>) -> Seq<EventView>
    decreases conditions.len(),
{
    if conditions.len() == 0 {
        Seq::empty()
    } else {
        conditions.first().events() + batch_events(conditions.drop_first())
    }
}

/// The records that a batch is owed: one for each candidate, in order, with
/// the result that the conditions of that candidate determine.
pub open spec fn batch_records(candidates: Seq<Seq<char>>, conditions: Seq<Conditions>) -> Seq<
    RecordView,
> {
    Seq::new(
        candidates.len(),
        |j: int| RecordView { candidate: candidates[j], result: conditions[j].result() },
    )
}

/// How many files of a batch fail under their conditions.
pub open spec fn failing(conditions: Seq<Conditions>) -> nat {
    conditions.filter(|c: Conditions| c.result() is Err).len()
}

/// How many files of a batch the tool fails on.
pub open spec fn failing_transcodes(conditions: Seq<Conditions>) -> nat {
    conditions.filter(|c: Conditions| c.result() matches Err(e) && e is TranscodeFailed).len()
}

/// How many of `records` tell of a failure of the tool.
pub open spec fn transcode_failures_among(records: Seq<RecordView>) -> nat {
    records.filter(|r: RecordView| r.result matches Err(e) && e is TranscodeFailed).len()
}

/// A run at work on a job follows that job: while the events leave the job
/// unsettled the run stays at work on it, and with the event that settles
/// the job the run records the result and moves on.
proof fn lemma_processing_tracks_job(
    run: RunView,
    events: Seq<EventView>,
    result: Result<Optimized, OptimizeErrorView>,
)
    requires
        run.phase is Processing,
        events.len() >= 1,
        forall|i: int|
            0 <= i < events.len() ==> (#[trigger] run.phase->job.run(events.take(i))).result()
                is None,
        run.phase->job.run(events).result() == Some(result),
    ensures
        run.run(events) == run.settle(run.phase->mode, result),
    decreases events.len(),
{
    let job = run.phase->job;
    let first = events.first();
    let rest = events.drop_first();
    let advanced = job.step(first);
    assert(job.run(events) == advanced.run(rest));
    if events.len() > 1 {
        // The first event leaves the job unsettled, so the run stays at work
        // on it, and the rest of the events are to the advanced job what all
        // of them are to the job.
        assert(job.run(events.take(1)) == advanced) by {
            reveal_with_fuel(JobView::run, 2);
        }
        assert forall|i: int| 0 <= i < rest.len() implies (#[trigger] advanced.run(
            rest.take(i),
        )).result() is None by {
            assert(events.take(i + 1).drop_first() =~= rest.take(i));
            assert(job.run(events.take(i + 1)) == advanced.run(rest.take(i)));
        }
        lemma_processing_tracks_job(run.step(first), rest, result);
    }
}

/// A run at work on a fresh job for a candidate, fed the events of that
/// candidate's conditions, records the result that the conditions determine
/// and moves on.
pub proof fn lemma_file_in_run(run: RunView, conditions: Conditions)
    requires
        run.phase matches PhaseView::Processing { job, .. } && job == JobView::begin(
            job.request.source,
        ),
    ensures
        run.run(conditions.events()) == run.settle(run.phase->mode, conditions.result()),
{
    lemma_job_follows_conditions(run.phase->job.request.source, conditions);
    lemma_processing_tracks_job(run, conditions.events(), conditions.result());
}

/// A batch at work on a fresh job for its next candidate, fed the events of
/// the next few candidates, has one more record for each of them, and is
/// then at work on a fresh job for the candidate after them, or over without
/// a failure if there is none.
proof fn lemma_batch_from(run: RunView, next: Seq<Conditions>)
    requires
        run.wf(),
        run.phase matches PhaseView::Processing { job, mode } && mode == Mode::Batch && job
            == JobView::begin(run.candidates[run.summary.records.len() as int]),
        next.len() <= run.candidates.len() - run.summary.records.len(),
    ensures
        ({
            let end = run.run(batch_events(next));
            let done = run.summary.records.len() as int;
            &&& end.wf()
            &&& end.candidates == run.candidates
            &&& end.target == run.target
            &&& end.summary.total == run.summary.total
            &&& end.summary.records == run.summary.records + Seq::new(
                next.len(),
                |j: int|
                    RecordView { candidate: run.candidates[done + j], result: next[j].result() },
            )
            &&& end.phase == if done + next.len() < run.candidates.len() {
                PhaseView::Processing {
                    job: JobView::begin(run.candidates[done + next.len()]),
                    mode: Mode::Batch,
                }
            } else {
                PhaseView::Finished { failure: None }
            }
        }),
    decreases next.len(),
{
    let done = run.summary.records.len() as int;
    let owed = Seq::new(
        next.len(),
        |j: int| RecordView { candidate: run.candidates[done + j], result: next[j].result() },
    );
    if next.len() == 0 {
        assert(run.summary.records + owed =~= run.summary.records);
    } else {
        // The first file is recorded; the others follow by induction.
        let first = next.first();
        let others = next.drop_first();
        let mid = run.settle(Mode::Batch, first.result());
        let later = Seq::new(
            others.len(),
            |j: int|
                RecordView {
                    candidate: mid.candidates[done + 1 + j],
                    result: others[j].result(),
                },
        );
        lemma_file_in_run(run, first);
        lemma_run_concat(run, first.events(), batch_events(others));
        if done + 1 < run.candidates.len() {
            lemma_batch_from(mid, others);
        }
        assert(mid.summary.records + later =~= run.summary.records + owed);
    }
}

/// Two lists that agree, place by place, on whether a property holds have
/// it in as many places.
proof fn lemma_same_count<A, B>(
    left: Seq<A>,
    right: Seq<B>,
    holds_left: spec_fn(A) -> bool,
    holds_right: spec_fn(B) -> bool,
)
    requires
        left.len() == right.len(),
        forall|j: int| 0 <= j < left.len() ==> holds_left(left[j]) == holds_right(right[j]),
    ensures
        left.filter(holds_left).len() == right.filter(holds_right).len(),
    decreases left.len(),
{
    reveal(Seq::filter);
    if left.len() > 0 {
        lemma_same_count(left.drop_last(), right.drop_last(), holds_left, holds_right);
    }
}

/// A directory run attempts every candidate and ends in success, whatever
/// becomes of the single files. Let a scan give `N` candidates, and let the
/// outside world answer for the `j`-th of them as `conditions[j]` says. Then
/// each candidate gets its turn: after the files before it, the run is at
/// work on a fresh job for it. The run ends without a failure, with exit
/// status success and `N` records; the `j`-th record names the `j`-th
/// candidate with the result that its conditions determine; and as many
/// records tell of a failure, and of a failure of the tool, as there are
/// files that fail so.
pub proof fn lemma_batch_attempts_every_candidate(
    target: Seq<char>,
    entries: Seq<ScanEntryView>,
    conditions: Seq<Conditions>,
)
    requires
        selection(entries) matches Ok(candidates) && candidates.len() == conditions.len(),
    ensures
        ({
            let candidates = selection(entries)->Ok_0;
            let scanning = RunView::start(Some(target)).step(
                EventView::Inspected { exists: true, is_file: false, is_directory: true },
            );
            let end = scanning.run(seq![EventView::Scanned { entries }] + batch_events(conditions));
            &&& forall|j: int|
                0 <= j < candidates.len() ==> (#[trigger] scanning.run(
                    seq![EventView::Scanned { entries }] + batch_events(conditions.take(j)),
                )).phase == (PhaseView::Processing {
                    job: JobView::begin(candidates[j]),
                    mode: Mode::Batch,
                })
            &&& end.phase == PhaseView::Finished { failure: None }
            &&& end.status() == Some(ExitStatus::Success)
            &&& end.summary.total == candidates.len()
            &&& end.summary.records == batch_records(candidates, conditions)
            &&& failures_among(end.summary.records) == failing(conditions)
            &&& transcode_failures_among(end.summary.records) == failing_transcodes(conditions)
        }),
{
    let candidates = selection(entries)->Ok_0;
    let scanning = RunView::start(Some(target)).step(
        EventView::Inspected { exists: true, is_file: false, is_directory: true },
    );
    let scan = seq![EventView::Scanned { entries }];
    let scanned = scanning.step(EventView::Scanned { entries });
    lemma_run_concat(scanning, scan, batch_events(conditions));
    assert(scanning.run(scan) == scanned) by {
        reveal_with_fuel(RunView::run, 2);
    }
    let end = scanned.run(batch_events(conditions));
    let owed = batch_records(candidates, conditions);
    if candidates.len() > 0 {
        lemma_batch_from(scanned, conditions);
        assert forall|j: int| 0 <= j < candidates.len() implies (#[trigger] scanning.run(
            scan + batch_events(conditions.take(j)),
        )).phase == (PhaseView::Processing {
            job: JobView::begin(candidates[j]),
            mode: Mode::Batch,
        }) by {
            lemma_run_concat(scanning, scan, batch_events(conditions.take(j)));
            lemma_batch_from(scanned, conditions.take(j));
        }
    }
    assert(end.summary.records =~= owed);
    lemma_same_count(
        owed,
        conditions,
        |record: RecordView| record.result is Err,
        |c: Conditions| c.result() is Err,
    );
    lemma_same_count(
        owed,
        conditions,
        |r: RecordView| r.result matches Err(e) && e is TranscodeFailed,
        |c: Conditions| c.result() matches Err(e) && e is TranscodeFailed,
    );
}

/// A single-file run ends as its file does: with success if the file was
/// optimized, and with the status of a failed optimization otherwise. Either
/// way the file has its record.
pub proof fn lemma_single_file_run(target: Seq<char>, is_directory: bool, conditions: Conditions)
    requires
        is_candidate_path(target),
    ensures
        ({
            let inspected = RunView::start(Some(target)).step(
                EventView::Inspected { exists: true, is_file: true, is_directory },
            );
            let end = inspected.run(conditions.events());
            &&& end.status() == Some(
                if conditions.result() is Ok {
                    ExitStatus::Success
                } else {
                    ExitStatus::OptimizationFailed
                },
            )
            &&& end.summary.total == 1
            &&& end.summary.records == seq![
                RecordView { candidate: target, result: conditions.result() },
            ]
        }),
{
    let inspected = RunView::start(Some(target)).step(
        EventView::Inspected { exists: true, is_file: true, is_directory },
    );
    lemma_file_in_run(inspected, conditions);
    assert(inspected.settle(Mode::SingleFile, conditions.result()).summary.records =~= seq![
        RecordView { candidate: target, result: conditions.result() },
    ]);
}

} // verus!
