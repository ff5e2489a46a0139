use faststart::exchange::{Action, Event, ExitStatus};
use faststart::optimizer::{settle_replacement, Job, OptimizeError, Optimized, Severity};
use faststart::replacer::{Replacement, ReplacementOutcome};
use faststart::transcoder::{classify_exit, tool_program, TranscodeOutcome, TranscodeRequest};

fn text(s: &str) -> String {
    String::from(s)
}

fn removed(report: Result<(), &str>) -> Event {
    Event::OriginalRemoved { report: report.map_err(text) }
}

fn renamed(report: Result<(), &str>) -> Event {
    Event::StagingRenamed { report: report.map_err(text) }
}

fn exited(succeeded: bool, diagnostic: &str) -> Event {
    Event::ToolExited { succeeded, diagnostic: text(diagnostic) }
}

fn result_of(job: Job) -> Result<Optimized, OptimizeError> {
    match job.finish() {
        Ok(result) => result,
        Err(job) => panic!("the job is not settled: {:?}", job),
    }
}

#[test]
fn request_derives_its_staging_path() {
    let request = TranscodeRequest::new(text("clips/holiday.mp4"));
    assert_eq!(request.source(), "clips/holiday.mp4");
    assert_eq!(request.staging(), "clips/holiday.new.mp4");
}

#[test]
fn request_arguments_are_the_fast_start_stream_copy() {
    let request = TranscodeRequest::new(text("clips/holiday.mp4"));
    assert_eq!(
        request.arguments(),
        vec![
            text("-hide_banner"),
            text("-i"),
            text("clips/holiday.mp4"),
            text("-c"),
            text("copy"),
            text("-movflags"),
            text("+faststart"),
            text("-y"),
            text("clips/holiday.new.mp4"),
        ]
    );
}

#[test]
fn tool_program_is_ffmpeg() {
    assert_eq!(tool_program(), "ffmpeg");
}

#[test]
fn exit_with_success_names_the_staging_file() {
    let request = TranscodeRequest::new(text("a.mp4"));
    assert_eq!(
        classify_exit(&request, true, text("warnings that do not matter")),
        TranscodeOutcome::Success { staging: text("a.new.mp4") }
    );
}

#[test]
fn exit_with_failure_keeps_the_diagnostic_verbatim() {
    let request = TranscodeRequest::new(text("a.mp4"));
    let diagnostic = "a.mp4: Invalid data found when processing input\n  second line\n";
    assert_eq!(
        classify_exit(&request, false, text(diagnostic)),
        TranscodeOutcome::ExternalToolFailure { diagnostic: text(diagnostic) }
    );
}

#[test]
fn exit_with_failure_and_no_diagnostic_is_still_a_failure() {
    let request = TranscodeRequest::new(text("a.mp4"));
    assert_eq!(
        classify_exit(&request, false, text("")),
        TranscodeOutcome::ExternalToolFailure { diagnostic: text("") }
    );
}

#[test]
fn replacement_removes_then_renames() {
    let replacement = Replacement::begin(text("a.mp4"), text("a.new.mp4"));
    assert!(!replacement.is_settled());
    assert_eq!(replacement.pending(), Some(Action::RemoveOriginal { path: text("a.mp4") }));
    let replacement = replacement.advance(removed(Ok(())));
    assert!(!replacement.is_settled());
    assert_eq!(
        replacement.pending(),
        Some(Action::RenameStaging { from: text("a.new.mp4"), to: text("a.mp4") })
    );
    let replacement = replacement.advance(renamed(Ok(())));
    assert!(replacement.is_settled());
    assert_eq!(replacement.pending(), None);
    assert_eq!(replacement.into_outcome().ok(), Some(ReplacementOutcome::Replaced));
}

#[test]
fn replacement_stops_at_a_failed_removal() {
    let replacement = Replacement::begin(text("a.mp4"), text("a.new.mp4"))
        .advance(removed(Err("permission denied")));
    assert!(replacement.is_settled());
    assert_eq!(replacement.pending(), None);
    assert_eq!(
        replacement.into_outcome().ok(),
        Some(ReplacementOutcome::OriginalRemovalFailed { cause: text("permission denied") })
    );
}

#[test]
fn replacement_reports_a_failed_rename_as_such() {
    let replacement = Replacement::begin(text("a.mp4"), text("a.new.mp4"))
        .advance(removed(Ok(())))
        .advance(renamed(Err("no space left on device")));
    assert_eq!(
        replacement.into_outcome().ok(),
        Some(ReplacementOutcome::RenameFailed { cause: text("no space left on device") })
    );
}

#[test]
fn replacement_ignores_a_rename_report_before_the_removal() {
    let replacement =
        Replacement::begin(text("a.mp4"), text("a.new.mp4")).advance(renamed(Ok(())));
    assert!(!replacement.is_settled());
    assert_eq!(replacement.pending(), Some(Action::RemoveOriginal { path: text("a.mp4") }));
}

#[test]
fn replacement_that_is_settled_stays_settled() {
    let replacement = Replacement::begin(text("a.mp4"), text("a.new.mp4"))
        .advance(removed(Err("busy")))
        .advance(removed(Ok(())))
        .advance(renamed(Ok(())));
    assert_eq!(
        replacement.into_outcome().ok(),
        Some(ReplacementOutcome::OriginalRemovalFailed { cause: text("busy") })
    );
}

#[test]
fn unsettled_replacement_is_handed_back() {
    let replacement = Replacement::begin(text("a.mp4"), text("a.new.mp4"));
    match replacement.into_outcome() {
        Ok(outcome) => panic!("settled too early: {:?}", outcome),
        Err(replacement) => {
            assert_eq!(replacement.pending(), Some(Action::RemoveOriginal { path: text("a.mp4") }))
        }
    }
}

#[test]
fn replacement_outcomes_become_file_results() {
    assert_eq!(settle_replacement(ReplacementOutcome::Replaced), Ok(Optimized));
    assert_eq!(
        settle_replacement(ReplacementOutcome::OriginalRemovalFailed { cause: text("x") }),
        Err(OptimizeError::OriginalRemovalFailed { cause: text("x") })
    );
    assert_eq!(
        settle_replacement(ReplacementOutcome::RenameFailed { cause: text("y") }),
        Err(OptimizeError::RenameFailed { cause: text("y") })
    );
}

#[test]
fn job_runs_the_four_steps_in_order() {
    let job = Job::begin(text("clips/a.mp4"));
    assert_eq!(job.candidate(), "clips/a.mp4");
    assert_eq!(job.pending(), Some(Action::Probe { path: text("clips/a.mp4") }));

    let job = job.advance(Event::Probed { exists: true });
    assert_eq!(
        job.pending(),
        Some(Action::Transcode { request: TranscodeRequest::new(text("clips/a.mp4")) })
    );

    let job = job.advance(exited(true, ""));
    assert_eq!(job.pending(), Some(Action::RemoveOriginal { path: text("clips/a.mp4") }));

    let job = job.advance(removed(Ok(())));
    assert_eq!(
        job.pending(),
        Some(Action::RenameStaging { from: text("clips/a.new.mp4"), to: text("clips/a.mp4") })
    );
    assert!(!job.is_settled());

    let job = job.advance(renamed(Ok(())));
    assert!(job.is_settled());
    assert_eq!(job.pending(), None);
    assert_eq!(result_of(job), Ok(Optimized));
}

#[test]
fn job_on_a_missing_file_is_not_found() {
    let job = Job::begin(text("gone.mp4")).advance(Event::Probed { exists: false });
    assert!(job.is_settled());
    assert_eq!(job.pending(), None);
    assert_eq!(result_of(job), Err(OptimizeError::NotFound));
}

#[test]
fn job_with_a_failing_tool_never_touches_the_original() {
    let job = Job::begin(text("a.mp4"))
        .advance(Event::Probed { exists: true })
        .advance(exited(false, "moov atom not found"));
    assert!(job.is_settled());
    assert_eq!(job.pending(), None);
    // Reports that would answer a removal or a rename change nothing.
    let job = job.advance(removed(Ok(()))).advance(renamed(Ok(())));
    assert_eq!(job.pending(), None);
    assert_eq!(
        result_of(job),
        Err(OptimizeError::TranscodeFailed { diagnostic: text("moov atom not found") })
    );
}

#[test]
fn job_with_a_failed_removal_asks_for_no_rename() {
    let job = Job::begin(text("a.mp4"))
        .advance(Event::Probed { exists: true })
        .advance(exited(true, ""))
        .advance(removed(Err("read-only file system")));
    assert_eq!(job.pending(), None);
    assert_eq!(
        result_of(job),
        Err(OptimizeError::OriginalRemovalFailed { cause: text("read-only file system") })
    );
}

#[test]
fn rename_failure_after_removal_is_rename_failed() {
    let job = Job::begin(text("a.mp4"))
        .advance(Event::Probed { exists: true })
        .advance(exited(true, ""))
        .advance(removed(Ok(())))
        .advance(renamed(Err("cross-device link")));
    assert_eq!(
        result_of(job),
        Err(OptimizeError::RenameFailed { cause: text("cross-device link") })
    );
}

#[test]
fn job_ignores_events_that_answer_nothing() {
    let job = Job::begin(text("a.mp4"))
        .advance(exited(true, ""))
        .advance(removed(Ok(())))
        .advance(renamed(Ok(())))
        .advance(Event::Inspected { exists: true, is_file: true, is_directory: false })
        .advance(Event::Scanned { entries: vec![] })
        .advance(Event::ScanRejected { cause: text("bad pattern") });
    assert_eq!(job.pending(), Some(Action::Probe { path: text("a.mp4") }));

    let job = job.advance(Event::Probed { exists: true }).advance(Event::Probed { exists: false });
    assert_eq!(
        job.pending(),
        Some(Action::Transcode { request: TranscodeRequest::new(text("a.mp4")) })
    );
}

#[test]
fn unsettled_job_is_handed_back() {
    let job = Job::begin(text("a.mp4")).advance(Event::Probed { exists: true });
    match job.finish() {
        Ok(result) => panic!("settled too early: {:?}", result),
        Err(job) => assert_eq!(job.candidate(), "a.mp4"),
    }
}

#[test]
fn only_a_failed_rename_is_severe() {
    assert_eq!(OptimizeError::NotFound.severity(), Severity::Ordinary);
    assert_eq!(
        OptimizeError::TranscodeFailed { diagnostic: text("d") }.severity(),
        Severity::Ordinary
    );
    assert_eq!(
        OptimizeError::OriginalRemovalFailed { cause: text("c") }.severity(),
        Severity::Ordinary
    );
    assert_eq!(OptimizeError::RenameFailed { cause: text("c") }.severity(), Severity::Severe);
}

#[test]
fn rename_failed_ranks_above_transcode_failed() {
    let rename = OptimizeError::RenameFailed { cause: text("c") };
    let transcode = OptimizeError::TranscodeFailed { diagnostic: text("c") };
    assert_ne!(rename, transcode);
    assert!(rename.severity().level() > transcode.severity().level());
    assert_eq!(Severity::Ordinary.level(), 1);
    assert_eq!(Severity::Severe.level(), 2);
}

#[test]
fn exit_codes_are_small_and_distinct() {
    assert_eq!(ExitStatus::Success.code(), 0);
    assert_eq!(ExitStatus::NoArgument.code(), 1);
    assert_eq!(ExitStatus::TargetNotFound.code(), 2);
    assert_eq!(ExitStatus::NotFileOrDirectory.code(), 3);
    assert_eq!(ExitStatus::OptimizationFailed.code(), 4);
    assert_eq!(ExitStatus::UnsupportedKind.code(), 5);
}
