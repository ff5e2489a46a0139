//! The single-file optimizer: one candidate, from the check that it is still
//! there to the replacement of the original, with every way in which that
//! can fail told apart.
//!
//! Whatever goes wrong here concerns this one file. The tool is run on the
//! source only if the source exists, the original is touched only after the
//! tool reported success, and a failure of the tool leaves the original as
//! it was.

use crate::exchange::{Action, ActionView, Event, EventView};
use crate::paths::staging_path_of;
use crate::replacer::{
    replacement_outcome, Replacement, ReplacementOutcome, ReplacementOutcomeView, ReplacementView,
};
use crate::transcoder::{
    classify_exit, outcome_of_exit, RequestView, TranscodeOutcome, TranscodeOutcomeView,
    TranscodeRequest,
};
use vstd::prelude::*;

verus! {

/// The mark of a file that was optimized and replaced.
#[derive(Clone, Copy, Debug, PartialEq, Eq, Structural)]
pub struct Optimized;

/// How much is at stake after an error.
#[derive(Clone, Copy, Debug, PartialEq, Eq, Structural)]
pub enum Severity {
    /// The original file is as it was.
    Ordinary,
    /// The original file is gone and its replacement is not in place.
    Severe,
}

impl Severity {
    /// The rank of a severity: the higher, the louder the report.
    pub open spec fn level_of(self) -> int {
        match self {
            Severity::Ordinary => 1,
            Severity::Severe => 2,
        }
    }

    /// The rank of this severity.
    pub fn level(&self) -> (level: u8)
        ensures
            level == self.level_of(),
    {
        match self {
            Severity::Ordinary => 1,
            Severity::Severe => 2,
        }
    }
}

/// An error of the optimizer as the contracts see it.
pub enum OptimizeErrorView {
    NotFound,
    TranscodeFailed { diagnostic: Seq<char> },
    OriginalRemovalFailed { cause: Seq<char> },
    RenameFailed { cause: Seq<char> },
}

impl OptimizeErrorView {
    /// Only a failed rename is severe: it alone leaves the original removed
    /// and the replacement under its staging name.
    pub open spec fn severity(self) -> Severity {
        match self {
            OptimizeErrorView::RenameFailed { .. } => Severity::Severe,
            _ => Severity::Ordinary,
        }
    }
}

/// Why one file was not optimized.
#[derive(Debug, PartialEq, Eq)]
pub enum OptimizeError {
    /// The candidate did not exist when its turn came.
    NotFound,
    /// The tool reported failure. The original is untouched.
    TranscodeFailed { diagnostic: String },
    /// The original could not be removed. It is still there.
    OriginalRemovalFailed { cause: String },
    /// The original was removed and the staging file could not take its
    /// name.
    RenameFailed { cause: String },
}

impl View for OptimizeError {
    type V = OptimizeErrorView;

    open spec fn view(&self) -> OptimizeErrorView {
        match self {
            OptimizeError::NotFound => OptimizeErrorView::NotFound,
            OptimizeError::TranscodeFailed { diagnostic } => OptimizeErrorView::TranscodeFailed {
                diagnostic: diagnostic@,
            },
            OptimizeError::OriginalRemovalFailed {
                cause,
            } => OptimizeErrorView::OriginalRemovalFailed { cause: cause@ },
            OptimizeError::RenameFailed { cause } => OptimizeErrorView::RenameFailed {
                cause: cause@,
            },
        }
    }
}

impl OptimizeError {
    /// How loudly this error is to be reported.
    pub fn severity(&self) -> (severity: Severity)
        ensures
            severity == self@.severity(),
    {
        match self {
            OptimizeError::RenameFailed { .. } => Severity::Severe,
            _ => Severity::Ordinary,
        }
    }
}

/// The result of one file as the contracts see it.
pub open spec fn result_view(result: Result<Optimized, OptimizeError>) -> Result<
    Optimized,
    OptimizeErrorView,
> {
    match result {
        Ok(done) => Ok(done),
        Err(error) => Err(error@),
    }
}

/// What a replacement outcome means for the file.
pub open spec fn result_of_replacement(outcome: ReplacementOutcomeView) -> Result<
    Optimized,
    OptimizeErrorView,
> {
    match outcome {
        ReplacementOutcomeView::Replaced => Ok(Optimized),
        ReplacementOutcomeView::OriginalRemovalFailed { cause } => Err(
            OptimizeErrorView::OriginalRemovalFailed { cause },
        ),
        ReplacementOutcomeView::RenameFailed { cause } => Err(
            OptimizeErrorView::RenameFailed { cause },
        ),
    }
}

/// Turns the outcome of the replacement into the result of the file.
pub fn settle_replacement(outcome: ReplacementOutcome) -> (result: Result<Optimized, OptimizeError>)
    ensures
        result_view(result) == result_of_replacement(outcome@),
{
    match outcome {
        ReplacementOutcome::Replaced => Ok(Optimized),
        ReplacementOutcome::OriginalRemovalFailed { cause } => Err(
            OptimizeError::OriginalRemovalFailed { cause },
        ),
        ReplacementOutcome::RenameFailed { cause } => Err(OptimizeError::RenameFailed { cause }),
    }
}

/// Where the work on one file stands, as the contracts see it.
pub enum JobStageView {
    Probing,
    Transcoding,
    Replacing { replacement: ReplacementView },
    Settled { result: Result<Optimized, OptimizeErrorView> },
}

/// The work on one file as the contracts see it.
pub struct JobView {
    pub request: RequestView,
    pub stage: JobStageView,
}

impl JobView {
    /// The work on `candidate` of which nothing is done yet.
    pub open spec fn begin(candidate: Seq<char>) -> JobView {
        JobView { request: RequestView::for_source(candidate), stage: JobStageView::Probing }
    }

    /// The staging path belongs to the source, and a replacement under way
    /// is the one of this source by this staging file.
    pub open spec fn wf(self) -> bool {
        &&& self.request.staging == staging_path_of(self.request.source)
        &&& self.stage matches JobStageView::Replacing { replacement } ==> {
            &&& replacement.source == self.request.source
            &&& replacement.staging == self.request.staging
            &&& replacement.outcome() is None
        }
    }

    /// The outside work that is due, if any.
    pub open spec fn pending(self) -> Option<ActionView> {
        match self.stage {
            JobStageView::Probing => Some(ActionView::Probe { path: self.request.source }),
            JobStageView::Transcoding => Some(ActionView::Transcode { request: self.request }),
            JobStageView::Replacing { replacement } => replacement.pending(),
            JobStageView::Settled { .. } => None,
        }
    }

    /// The result, once it is settled.
    pub open spec fn result(self) -> Option<Result<Optimized, OptimizeErrorView>> {
        match self.stage {
            JobStageView::Settled { result } => Some(result),
            _ => None,
        }
    }

    /// The work after `event`. An event that does not answer the pending
    /// action changes nothing.
    pub open spec fn step(self, event: EventView) -> JobView {
        match (self.stage, event) {
            (JobStageView::Probing, EventView::Probed { exists }) => {
                if exists {
                    JobView { stage: JobStageView::Transcoding, ..self }
                } else {
                    JobView {
                        stage: JobStageView::Settled { result: Err(OptimizeErrorView::NotFound) },
                        ..self
                    }
                }
            },
            (JobStageView::Transcoding, EventView::ToolExited { succeeded, diagnostic }) => {
                match outcome_of_exit(self.request, succeeded, diagnostic) {
                    TranscodeOutcomeView::Success { staging } => JobView {
                        stage: JobStageView::Replacing {
                            replacement: ReplacementView::begin(self.request.source, staging),
                        },
                        ..self
                    },
                    TranscodeOutcomeView::ExternalToolFailure { diagnostic } => JobView {
                        stage: JobStageView::Settled {
                            result: Err(OptimizeErrorView::TranscodeFailed { diagnostic }),
                        },
                        ..self
                    },
                }
            },
            (JobStageView::Replacing { replacement }, _) => {
                let advanced = replacement.step(event);
                match advanced.outcome() {
                    Some(outcome) => JobView {
                        stage: JobStageView::Settled { result: result_of_replacement(outcome) },
                        ..self
                    },
                    None => JobView {
                        stage: JobStageView::Replacing { replacement: advanced },
                        ..self
                    },
                }
            },
            _ => self,
        }
    }

    /// The work after each of `events` in turn.
    pub open spec fn run(self, events: Seq<EventView>) -> JobView
        decreases events.len(),
    {
        if events.len() == 0 {
            self
        } else {
            self.step(events.first()).run(events.drop_first())
        }
    }
}

/// Where the work on one file stands.
#[derive(Debug)]
enum JobStage {
    Probing,
    Transcoding,
    Replacing { replacement: Replacement },
    Settled { result: Result<Optimized, OptimizeError> },
}

/// The work on one candidate file, step by step.
#[derive(Debug)]
pub struct Job {
    request: TranscodeRequest,
    stage: JobStage,
}

impl View for Job {
    type V = JobView;

    closed spec fn view(&self) -> JobView {
        JobView {
            request: self.request@,
            stage: match self.stage {
                JobStage::Probing => JobStageView::Probing,
                JobStage::Transcoding => JobStageView::Transcoding,
                JobStage::Replacing { replacement } => JobStageView::Replacing {
                    replacement: replacement@,
                },
                JobStage::Settled { result } => JobStageView::Settled {
                    result: result_view(result),
                },
            },
        }
    }
}

impl Job {
    #[verifier::type_invariant]
    spec fn well_formed(self) -> bool {
        self@.wf()
    }

    /// Starts the work on `candidate`.
    pub fn begin(candidate: String) -> (job: Job)
        ensures
            job@ == JobView::begin(candidate@),
    {
        Job { request: TranscodeRequest::new(candidate), stage: JobStage::Probing }
    }

    /// The file that this work is about.
    pub fn candidate(&self) -> (candidate: &str)
        ensures
            candidate@ == self@.request.source,
    {
        self.request.source()
    }

    /// The outside work that is due, if any.
    pub fn pending(&self) -> (action: Option<Action>)
        ensures
            self@.wf(),
            match action {
                Some(action) => self@.pending() == Some(action@),
                None => self@.pending() is None,
            },
    {
        proof {
            use_type_invariant(self);
        }
        match &self.stage {
            JobStage::Probing => Some(
                Action::Probe { path: String::from_str(self.request.source()) },
            ),
            JobStage::Transcoding => Some(
                Action::Transcode {
                    request: TranscodeRequest::new(String::from_str(self.request.source())),
                },
            ),
            JobStage::Replacing { replacement } => replacement.pending(),
            JobStage::Settled { .. } => None,
        }
    }

    /// Whether the result is settled.
    pub fn is_settled(&self) -> (settled: bool)
        ensures
            settled == self@.result().is_some(),
    {
        match &self.stage {
            JobStage::Settled { .. } => true,
            _ => false,
        }
    }

    /// Takes in the answer to the pending action.
    pub fn advance(self, event: Event) -> (next: Job)
        ensures
            self@.wf(),
            next@ == self@.step(event@),
            next@.wf(),
    {
        proof {
            use_type_invariant(&self);
        }
        let Job { request, stage } = self;
        match stage {
            JobStage::Probing => match event {
                Event::Probed { exists } => {
                    if exists {
                        Job { request, stage: JobStage::Transcoding }
                    } else {
                        Job {
                            request,
                            stage: JobStage::Settled { result: Err(OptimizeError::NotFound) },
                        }
                    }
                },
                _ => Job { request, stage: JobStage::Probing },
            },
            JobStage::Transcoding => match event {
                Event::ToolExited { succeeded, diagnostic } => {
                    match classify_exit(&request, succeeded, diagnostic) {
                        TranscodeOutcome::Success { staging } => {
                            let source = String::from_str(request.source());
                            Job {
                                request,
                                stage: JobStage::Replacing {
                                    replacement: Replacement::begin(source, staging),
                                },
                            }
                        },
                        TranscodeOutcome::ExternalToolFailure { diagnostic } => Job {
                            request,
                            stage: JobStage::Settled {
                                result: Err(OptimizeError::TranscodeFailed { diagnostic }),
                            },
                        },
                    }
                },
                _ => Job { request, stage: JobStage::Transcoding },
            },
            JobStage::Replacing { replacement } => {
                match replacement.advance(event).into_outcome() {
                    Ok(outcome) => Job {
                        request,
                        stage: JobStage::Settled { result: settle_replacement(outcome) },
                    },
                    Err(replacement) => Job { request, stage: JobStage::Replacing { replacement } },
                }
            },
            JobStage::Settled { result } => Job { request, stage: JobStage::Settled { result } },
        }
    }

    /// Ends the work and hands out its result if it is settled; hands the
    /// work back otherwise.
    pub fn finish(self) -> (finished: Result<Result<Optimized, OptimizeError>, Job>)
        ensures
            match finished {
                Ok(result) => self@.result() == Some(result_view(result)),
                Err(job) => self@.result() is None && job@ == self@,
            },
    {
        proof {
            use_type_invariant(&self);
        }
        let Job { request, stage } = self;
        match stage {
            JobStage::Settled { result } => Ok(result),
            stage => Err(Job { request, stage }),
        }
    }
}

/// What the outside world holds in store for one file: its answer to each
/// question, should the question be asked.
pub struct Conditions {
    /// Whether the file exists when its turn comes.
    pub exists: bool,
    /// Whether the tool reports success.
    pub tool_succeeds: bool,
    /// What the tool writes to its error stream.
    pub diagnostic: Seq<char>,
    /// How the removal of the original goes.
    pub removal: Result<(), Seq<char>>,
    /// How the rename of the staging file goes.
    pub rename: Result<(), Seq<char>>,
}

impl Conditions {
    /// The result that the file is owed under these conditions: not found
    /// if it does not exist; else the tool's failure with its diagnostic;
    /// else whatever the replacement comes to.
    pub open spec fn result(self) -> Result<Optimized, OptimizeErrorView> {
        if !self.exists {
            Err(OptimizeErrorView::NotFound)
        } else if !self.tool_succeeds {
            Err(OptimizeErrorView::TranscodeFailed { diagnostic: self.diagnostic })
        } else {
            result_of_replacement(replacement_outcome(self.removal, self.rename))
        }
    }

    /// How many pieces of outside work the file takes: each one is done only
    /// if the one before it went well.
    pub open spec fn steps(self) -> nat {
        if !self.exists {
            1
        } else if !self.tool_succeeds {
            2
        } else if self.removal is Err {
            3
        } else {
            4
        }
    }

    /// The outside work for `source` in its order: probe, transcode, remove
    /// the original, rename the staging file; cut off after the first step
    /// that did not go well.
    pub open spec fn actions(self, source: Seq<char>) -> Seq<ActionView> {
        let request = RequestView::for_source(source);
        seq![
            ActionView::Probe { path: source },
            ActionView::Transcode { request },
            ActionView::RemoveOriginal { path: source },
            ActionView::RenameStaging { from: request.staging, to: source },
        ].take(self.steps() as int)
    }

    /// The answers to those actions.
    pub open spec fn events(self) -> Seq<EventView> {
        seq![
            EventView::Probed { exists: self.exists },
            EventView::ToolExited { succeeded: self.tool_succeeds, diagnostic: self.diagnostic },
            EventView::OriginalRemoved { report: self.removal },
            EventView::StagingRenamed { report: self.rename },
        ].take(self.steps() as int)
    }
}

/// Running a job over two runs of events in turn is running it over both
/// at once.
pub proof fn lemma_run_concat(job: JobView, first: Seq<EventView>, second: Seq<EventView>)
    ensures
        job.run(first + second) == job.run(first).run(second),
    decreases first.len(),
{
    if first.len() > 0 {
        assert((first + second).drop_first() =~= first.drop_first() + second);
        lemma_run_concat(job.step(first.first()), first.drop_first(), second);
    }
}

/// Running a job over one more event is one more step.
pub proof fn lemma_run_push(job: JobView, events: Seq<EventView>, event: EventView)
    ensures
        job.run(events.push(event)) == job.run(events).step(event),
{
    let last = seq![event];
    assert(events.push(event) =~= events + last);
    lemma_run_concat(job, events, last);
    assert(job.run(events).run(last) == job.run(events).step(event)) by {
        reveal_with_fuel(JobView::run, 2);
    }
}

/// A job starts well formed.
pub proof fn lemma_begin_is_wf(candidate: Seq<char>)
    ensures
        JobView::begin(candidate).wf(),
{
}

/// Every step keeps a job well formed, and leaves its request as it is.
pub proof fn lemma_step_keeps_wf(job: JobView, event: EventView)
    requires
        job.wf(),
    ensures
        job.step(event).wf(),
        job.step(event).request == job.request,
{
}

/// A settled job stays as it is, whatever is reported to it.
pub proof fn lemma_settled_stays(job: JobView, event: EventView)
    requires
        job.result() is Some,
    ensures
        job.step(event) == job,
{
}

/// A job asks for the outside work of its file in the fixed order, each piece
/// only after the one before it went well, and settles on the result that
/// the conditions determine: before the `i`-th answer it asks for the `i`-th
/// action, and after the last answer it asks for nothing more.
pub proof fn lemma_job_follows_conditions(source: Seq<char>, conditions: Conditions)
    ensures
        conditions.events().len() == conditions.steps(),
        conditions.actions(source).len() == conditions.steps(),
        forall|i: int|
            0 <= i < conditions.steps() ==> {
                &&& (#[trigger] JobView::begin(source).run(conditions.events().take(i))).pending()
                    == Some(conditions.actions(source)[i])
                &&& crate::exchange::answers(conditions.actions(source)[i], conditions.events()[i])
            },
        JobView::begin(source).run(conditions.events()).pending() is None,
        JobView::begin(source).run(conditions.events()).result() == Some(conditions.result()),
{
    let start = JobView::begin(source);
    let events = conditions.events();
    let n = conditions.steps() as int;
    assert forall|i: int| 0 <= i < n implies start.run(events.take(i + 1)) == start.run(
        events.take(i),
    ).step(events[i]) by {
        assert(events.take(i + 1) =~= events.take(i).push(events[i]));
        lemma_run_push(start, events.take(i), events[i]);
    }
    assert(events.take(n) =~= events);
    // One step at a time, from the start to the end.
    let after_probe = start.run(events.take(1));
    assert(after_probe == start.step(events[0]));
    if n >= 2 {
        let after_tool = start.run(events.take(2));
        assert(after_tool == after_probe.step(events[1]));
        if n >= 3 {
            let after_removal = start.run(events.take(3));
            assert(after_removal == after_tool.step(events[2]));
            if n >= 4 {
                assert(start.run(events.take(4)) == after_removal.step(events[3]));
            }
        }
    }
}

/// A failed rename is reported as itself and louder than anything else. A
/// file ends in a failed rename exactly if it was there, the tool succeeded,
/// the original was removed and the rename failed; the result then names the
/// rename with its cause. No other error is severe, so every other error,
/// a failure of the tool among them, ranks below it.
pub proof fn lemma_rename_failure_is_loudest(conditions: Conditions, other: OptimizeErrorView)
    ensures
        conditions.result() matches Err(error) && error is RenameFailed <==> conditions.exists
            && conditions.tool_succeeds && conditions.removal is Ok && conditions.rename is Err,
        conditions.result() matches Err(error) && error is RenameFailed ==> conditions.result()
            == Err::<Optimized, OptimizeErrorView>(
            OptimizeErrorView::RenameFailed { cause: conditions.rename->Err_0 },
        ),
        other is RenameFailed <==> other.severity() == Severity::Severe,
        !(other is RenameFailed) ==> other.severity().level_of() < Severity::Severe.level_of(),
{
}

} // verus!
