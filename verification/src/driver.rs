//! The traversal driver: decides from the kind of the target what a run
//! does, picks the candidates of a directory before the first of them is
//! touched, works through them one at a time, and folds their results into
//! the summary and the exit status of the run.
//!
//! Only the shape of the target can end a run early: a target that is
//! missing, of the wrong kind, or a directory that cannot be enumerated. A
//! file that fails in a directory run is recorded and the run goes on. A
//! single-file run has nothing to go on with, so the failure of its file is
//! the failure of the run.

use crate::exchange::{
    entry_views, Action, ActionView, Event, EventView, ExitStatus, ScanEntry, ScanEntryView,
};
use crate::optimizer::{result_view, Job, JobView, OptimizeError, OptimizeErrorView, Optimized};
use crate::paths::{is_candidate, is_candidate_path, scan_pattern, scan_pattern_of, texts};
use vstd::pervasive::unreached;
use vstd::prelude::*;

verus! {

/// What kind of thing a target path names.
#[derive(Clone, Copy, Debug, PartialEq, Eq, Structural)]
pub enum TargetKind {
    Missing,
    File,
    Directory,
    Other,
}

/// The kind of a target, from what an inspection found: a target that does
/// not exist is missing whatever else is said of it, and a file is a file
/// before it is anything else.
pub open spec fn target_kind(exists: bool, is_file: bool, is_directory: bool) -> TargetKind {
    if !exists {
        TargetKind::Missing
    } else if is_file {
        TargetKind::File
    } else if is_directory {
        TargetKind::Directory
    } else {
        TargetKind::Other
    }
}

/// Classifies a target from what an inspection found.
pub fn classify_target(exists: bool, is_file: bool, is_directory: bool) -> (kind: TargetKind)
    ensures
        kind == target_kind(exists, is_file, is_directory),
{
    if !exists {
        TargetKind::Missing
    } else if is_file {
        TargetKind::File
    } else if is_directory {
        TargetKind::Directory
    } else {
        TargetKind::Other
    }
}

/// A failure of a run as the contracts see it.
pub enum RunErrorView {
    NoArgument,
    TargetNotFound,
    UnsupportedFileKind,
    NotFileOrDirectory,
    DirectoryEnumerationFailed { cause: Seq<char> },
    FileFailed,
}

/// Why a run failed.
#[derive(Debug, PartialEq, Eq)]
pub enum RunError {
    /// No target was named.
    NoArgument,
    /// The target does not exist.
    TargetNotFound,
    /// The target is a file, and not of the target format.
    UnsupportedFileKind,
    /// The target is neither a file nor a directory.
    NotFileOrDirectory,
    /// The directory could not be enumerated.
    DirectoryEnumerationFailed { cause: String },
    /// The file of a single-file run was not optimized; its record says why.
    FileFailed,
}

impl View for RunError {
    type V = RunErrorView;

    open spec fn view(&self) -> RunErrorView {
        match self {
            RunError::NoArgument => RunErrorView::NoArgument,
            RunError::TargetNotFound => RunErrorView::TargetNotFound,
            RunError::UnsupportedFileKind => RunErrorView::UnsupportedFileKind,
            RunError::NotFileOrDirectory => RunErrorView::NotFileOrDirectory,
            RunError::DirectoryEnumerationFailed {
                cause,
            } => RunErrorView::DirectoryEnumerationFailed { cause: cause@ },
            RunError::FileFailed => RunErrorView::FileFailed,
        }
    }
}

/// The failure of a finished run as the contracts see it.
pub open spec fn failure_view(failure: Option<RunError>) -> Option<RunErrorView> {
    match failure {
        Some(error) => Some(error@),
        None => None,
    }
}

/// The exit status of a run that ended with `failure`, or without one. A
/// directory that cannot be enumerated is reported like a missing target.
pub open spec fn status_of(failure: Option<RunErrorView>) -> ExitStatus {
    match failure {
        None => ExitStatus::Success,
        Some(RunErrorView::NoArgument) => ExitStatus::NoArgument,
        Some(RunErrorView::TargetNotFound) => ExitStatus::TargetNotFound,
        Some(RunErrorView::DirectoryEnumerationFailed { .. }) => ExitStatus::TargetNotFound,
        Some(RunErrorView::NotFileOrDirectory) => ExitStatus::NotFileOrDirectory,
        Some(RunErrorView::FileFailed) => ExitStatus::OptimizationFailed,
        Some(RunErrorView::UnsupportedFileKind) => ExitStatus::UnsupportedKind,
    }
}

/// The exit status of a run that ended with `failure`, or without one.
pub fn exit_status(failure: &Option<RunError>) -> (status: ExitStatus)
    ensures
        status == status_of(failure_view(*failure)),
{
    match failure {
        None => ExitStatus::Success,
        Some(RunError::NoArgument) => ExitStatus::NoArgument,
        Some(RunError::TargetNotFound) => ExitStatus::TargetNotFound,
        Some(RunError::DirectoryEnumerationFailed { .. }) => ExitStatus::TargetNotFound,
        Some(RunError::NotFileOrDirectory) => ExitStatus::NotFileOrDirectory,
        Some(RunError::FileFailed) => ExitStatus::OptimizationFailed,
        Some(RunError::UnsupportedFileKind) => ExitStatus::UnsupportedKind,
    }
}

/// The candidate that a scan entry stands for, if any: a path that names a
/// regular file and has the target extension.
pub open spec fn candidate_of(entry: ScanEntryView) -> Option<Seq<char>> {
    match entry {
        ScanEntryView::Found { path, is_file } => if is_file && is_candidate_path(path) {
            Some(path)
        } else {
            None
        },
        ScanEntryView::Unreadable { .. } => None,
    }
}

/// `index` is where the first unreadable entry stands.
pub open spec fn is_first_unreadable(entries: Seq<ScanEntryView>, index: int) -> bool {
    &&& 0 <= index < entries.len()
    &&& entries[index] is Unreadable
    &&& forall|j: int| 0 <= j < index ==> !(entries[j] is Unreadable)
}

/// The candidates of a scan, in the order of the scan; or, if the scan could
/// not read some place, the cause that it gave for the first such place.
pub open spec fn selection(entries: Seq<ScanEntryView>) -> Result<Seq<Seq<char>>, Seq<char>> {
    if exists|index: int| is_first_unreadable(entries, index) {
        let index = choose|index: int| is_first_unreadable(entries, index);
        Err(entries[index]->cause)
    } else {
        Ok(entries.filter_map(|entry: ScanEntryView| candidate_of(entry)))
    }
}

/// The selection fails exactly if some entry is unreadable, and an entry is
/// the first unreadable one only where the selection gives its cause.
pub proof fn lemma_selection_fails(entries: Seq<ScanEntryView>, index: int)
    ensures
        selection(entries) is Err <==> exists|i: int|
            0 <= i < entries.len() && #[trigger] entries[i] is Unreadable,
        is_first_unreadable(entries, index) ==> selection(entries) == Err::<
            Seq<Seq<char>>,
            Seq<char>,
        >(entries[index]->cause),
{
    if exists|i: int| 0 <= i < entries.len() && #[trigger] entries[i] is Unreadable {
        let some = choose|i: int| 0 <= i < entries.len() && #[trigger] entries[i] is Unreadable;
        lemma_first_unreadable_exists(entries, some);
    }
}

/// Below an unreadable entry stands a first one.
proof fn lemma_first_unreadable_exists(entries: Seq<ScanEntryView>, bound: int)
    requires
        0 <= bound < entries.len(),
        entries[bound] is Unreadable,
    ensures
        exists|index: int| is_first_unreadable(entries, index),
    decreases bound,
{
    if exists|j: int| 0 <= j < bound && #[trigger] entries[j] is Unreadable {
        let lower = choose|j: int| 0 <= j < bound && #[trigger] entries[j] is Unreadable;
        lemma_first_unreadable_exists(entries, lower);
    } else {
        assert(is_first_unreadable(entries, bound));
    }
}

/// Picks the candidates out of the entries of a scan.
pub fn select_candidates(entries: &Vec<ScanEntry>) -> (selected: Result<Vec<String>, String>)
    ensures
        match selected {
            Ok(candidates) => selection(entry_views(entries@)) == Ok::<
                Seq<Seq<char>>,
                Seq<char>,
            >(texts(candidates@)),
            Err(cause) => selection(entry_views(entries@)) == Err::<Seq<Seq<char>>, Seq<char>>(
                cause@,
            ),
        },
{
    let ghost all = entry_views(entries@);
    let ghost pick = |entry: ScanEntryView| candidate_of(entry);
    let mut candidates: Vec<String> = Vec::new();
    let n: usize = entries.len();
    let mut i: usize = 0;
    while i < n
        invariant
            i <= n,
            n == entries.len(),
            all == entry_views(entries@),
            pick == (|entry: ScanEntryView| candidate_of(entry)),
            forall|j: int| 0 <= j < i ==> !(all[j] is Unreadable),
            texts(candidates@) == all.take(i as int).filter_map(pick),
        decreases n - i,
    {
        proof {
            all.lemma_filter_map_take_succ(pick, i as int);
        }
        match &entries[i] {
            ScanEntry::Found { path, is_file } => {
                if *is_file && is_candidate(path.as_str()) {
                    candidates.push(path.clone());
                }
            },
            ScanEntry::Unreadable { cause } => {
                proof {
                    lemma_selection_fails(all, i as int);
                }
                return Err(cause.clone());
            },
        }
        i += 1;
    }
    proof {
        assert(all.take(n as int) =~= all);
        lemma_selection_fails(all, 0);
    }
    Ok(candidates)
}

/// A record as the contracts see it.
pub struct RecordView {
    pub candidate: Seq<char>,
    pub result: Result<Optimized, OptimizeErrorView>,
}

/// What became of one candidate.
#[derive(Debug, PartialEq, Eq)]
pub struct Record {
    pub candidate: String,
    pub result: Result<Optimized, OptimizeError>,
}

impl View for Record {
    type V = RecordView;

    open spec fn view(&self) -> RecordView {
        RecordView { candidate: self.candidate@, result: result_view(self.result) }
    }
}

/// The views of a list of records.
pub open spec fn record_views(records: Seq<Record>) -> Seq<RecordView> {
    records.map_values(|record: Record| record@)
}

/// How many of `records` tell of a file that was not optimized.
pub open spec fn failures_among(records: Seq<RecordView>) -> nat {
    records.filter(|record: RecordView| record.result is Err).len()
}

/// A summary as the contracts see it.
pub struct SummaryView {
    pub records: Seq<RecordView>,
    pub total: nat,
}

/// The account of a run: what became of each candidate so far, in the order
/// in which they were worked on, and how many candidates there are in all.
#[derive(Debug)]
pub struct RunSummary {
    records: Vec<Record>,
    total: usize,
}

impl View for RunSummary {
    type V = SummaryView;

    closed spec fn view(&self) -> SummaryView {
        SummaryView { records: record_views(self.records@), total: self.total as nat }
    }
}

impl RunSummary {
    /// The summary of a run with `total` candidates, none of them worked on
    /// yet.
    pub fn expecting(total: usize) -> (summary: RunSummary)
        ensures
            summary@ == (SummaryView { records: Seq::<RecordView>::empty(), total: total as nat }),
    {
        let summary = RunSummary { records: Vec::new(), total };
        assert(summary@.records =~= Seq::<RecordView>::empty());
        summary
    }

    /// Appends what became of `candidate`.
    pub fn record(&mut self, candidate: String, result: Result<Optimized, OptimizeError>)
        ensures
            final(self)@ == (SummaryView {
                records: old(self)@.records.push(
                    RecordView { candidate: candidate@, result: result_view(result) },
                ),
                total: old(self)@.total,
            }),
    {
        self.records.push(Record { candidate, result });
        assert(self@.records =~= old(self)@.records.push(
            RecordView { candidate: candidate@, result: result_view(result) },
        ));
    }

    /// How many candidates the run has in all.
    pub fn total(&self) -> (total: usize)
        ensures
            total == self@.total,
    {
        self.total
    }

    /// How many candidates have been worked on.
    pub fn processed(&self) -> (processed: usize)
        ensures
            processed == self@.records.len(),
    {
        self.records.len()
    }

    /// The records so far, oldest first.
    pub fn records(&self) -> (records: &Vec<Record>)
        ensures
            record_views(records@) == self@.records,
    {
        &self.records
    }

    /// How many candidates were worked on and not optimized.
    pub fn failures(&self) -> (failures: usize)
        ensures
            failures == failures_among(self@.records),
    {
        let ghost all = self@.records;
        let ghost failed = |record: RecordView| record.result is Err;
        let n: usize = self.records.len();
        let mut failures: usize = 0;
        let mut i: usize = 0;
        while i < n
            invariant
                i <= n,
                n == self.records.len(),
                all == self@.records,
                all == record_views(self.records@),
                failed == (|record: RecordView| record.result is Err),
                failures == all.take(i as int).filter(failed).len(),
                failures <= i,
            decreases n - i,
        {
            proof {
                assert(all.take(i + 1) =~= all.take(i as int).push(all[i as int]));
                all.take(i as int).lemma_filter_push(all[i as int], failed);
            }
            if self.records[i].result.is_err() {
                failures += 1;
            }
            i += 1;
        }
        proof {
            assert(all.take(n as int) =~= all);
        }
        failures
    }
}

/// Whether a run is about one file or about the files of a directory.
#[derive(Clone, Copy, Debug, PartialEq, Eq, Structural)]
pub enum Mode {
    SingleFile,
    Batch,
}

/// Where a run stands, as the contracts see it.
pub enum PhaseView {
    Inspecting,
    Scanning,
    Processing { job: JobView, mode: Mode },
    Finished { failure: Option<RunErrorView> },
}

/// A run as the contracts see it.
pub struct RunView {
    pub target: Seq<char>,
    pub phase: PhaseView,
    pub candidates: Seq<Seq<char>>,
    pub summary: SummaryView,
}

impl RunView {
    /// A run that is over before it began.
    pub open spec fn ended(target: Seq<char>, failure: Option<RunErrorView>) -> RunView {
        RunView {
            target,
            phase: PhaseView::Finished { failure },
            candidates: Seq::empty(),
            summary: SummaryView { records: Seq::empty(), total: 0 },
        }
    }

    /// The run on `target`, of which nothing is done yet; without a target
    /// the run is over at once.
    pub open spec fn start(target: Option<Seq<char>>) -> RunView {
        match target {
            None => RunView::ended(Seq::empty(), Some(RunErrorView::NoArgument)),
            Some(target) => RunView {
                target,
                phase: PhaseView::Inspecting,
                candidates: Seq::empty(),
                summary: SummaryView { records: Seq::empty(), total: 0 },
            },
        }
    }

    /// The run on `target` as it takes up `candidates`: it is over if there
    /// are none, and at work on the first of them otherwise.
    pub open spec fn taking_up(target: Seq<char>, candidates: Seq<Seq<char>>, mode: Mode)
        -> RunView {
        RunView {
            target,
            phase: if candidates.len() == 0 {
                PhaseView::Finished { failure: None }
            } else {
                PhaseView::Processing { job: JobView::begin(candidates[0]), mode }
            },
            candidates,
            summary: SummaryView { records: Seq::empty(), total: candidates.len() },
        }
    }

    /// The run after the candidate at work came to `result`: the result is
    /// recorded, and the run goes on to the next candidate whatever the
    /// result was. After the last candidate the run is over; it has failed
    /// only if it was about a single file and that file failed.
    pub open spec fn settle(self, mode: Mode, result: Result<Optimized, OptimizeErrorView>)
        -> RunView {
        let done = self.summary.records.len() as int;
        let records = self.summary.records.push(
            RecordView { candidate: self.candidates[done], result },
        );
        RunView {
            phase: if done + 1 < self.candidates.len() {
                PhaseView::Processing { job: JobView::begin(self.candidates[done + 1]), mode }
            } else if mode == Mode::SingleFile && result is Err {
                PhaseView::Finished { failure: Some(RunErrorView::FileFailed) }
            } else {
                PhaseView::Finished { failure: None }
            },
            summary: SummaryView { records, total: self.summary.total },
            ..self
        }
    }

    /// The run after `event`. An event that does not answer the pending
    /// action changes nothing.
    pub open spec fn step(self, event: EventView) -> RunView {
        match (self.phase, event) {
            (PhaseView::Inspecting, EventView::Inspected { exists, is_file, is_directory }) => {
                match target_kind(exists, is_file, is_directory) {
                    TargetKind::Missing => RunView::ended(
                        self.target,
                        Some(RunErrorView::TargetNotFound),
                    ),
                    TargetKind::File => if is_candidate_path(self.target) {
                        RunView::taking_up(self.target, seq![self.target], Mode::SingleFile)
                    } else {
                        RunView::ended(self.target, Some(RunErrorView::UnsupportedFileKind))
                    },
                    TargetKind::Directory => RunView { phase: PhaseView::Scanning, ..self },
                    TargetKind::Other => RunView::ended(
                        self.target,
                        Some(RunErrorView::NotFileOrDirectory),
                    ),
                }
            },
            (PhaseView::Scanning, EventView::ScanRejected { cause }) => RunView::ended(
                self.target,
                Some(RunErrorView::DirectoryEnumerationFailed { cause }),
            ),
            (PhaseView::Scanning, EventView::Scanned { entries }) => match selection(entries) {
                Err(cause) => RunView::ended(
                    self.target,
                    Some(RunErrorView::DirectoryEnumerationFailed { cause }),
                ),
                Ok(candidates) => RunView::taking_up(self.target, candidates, Mode::Batch),
            },
            (PhaseView::Processing { job, mode }, _) => {
                let advanced = job.step(event);
                match advanced.result() {
                    None => RunView {
                        phase: PhaseView::Processing { job: advanced, mode },
                        ..self
                    },
                    Some(result) => self.settle(mode, result),
                }
            },
            _ => self,
        }
    }

    /// The run after each of `events` in turn.
    pub open spec fn run(self, events: Seq<EventView>) -> RunView
        decreases events.len(),
    {
        if events.len() == 0 {
            self
        } else {
            self.step(events.first()).run(events.drop_first())
        }
    }

    /// The outside work that is due. A run that is over asks to exit with
    /// its status, and keeps asking.
    pub open spec fn pending(self) -> Option<ActionView> {
        match self.phase {
            PhaseView::Inspecting => Some(ActionView::Inspect { path: self.target }),
            PhaseView::Scanning => Some(
                ActionView::Scan { pattern: scan_pattern_of(self.target) },
            ),
            PhaseView::Processing { job, .. } => job.pending(),
            PhaseView::Finished { failure } => Some(
                ActionView::Exit { status: status_of(failure) },
            ),
        }
    }

    /// The exit status, once the run is over.
    pub open spec fn status(self) -> Option<ExitStatus> {
        match self.phase {
            PhaseView::Finished { failure } => Some(status_of(failure)),
            _ => None,
        }
    }

    /// What holds of every run: the total is the number of candidates, which
    /// was fixed before the first of them was worked on; the records are
    /// those of the first candidates, in order; the job at work is the one of
    /// the next candidate; and a run that got as far as its candidates is
    /// over only when each of them has its record.
    pub open spec fn wf(self) -> bool {
        let records = self.summary.records;
        &&& self.summary.total == self.candidates.len()
        &&& records.len() <= self.candidates.len()
        &&& forall|j: int| 0 <= j < records.len() ==> (#[trigger] records[j]).candidate
            == self.candidates[j]
        &&& match self.phase {
            PhaseView::Inspecting => self.candidates.len() == 0,
            PhaseView::Scanning => self.candidates.len() == 0,
            PhaseView::Processing { job, mode } => {
                &&& job.wf()
                &&& job.result() is None
                &&& records.len() < self.candidates.len()
                &&& job.request.source == self.candidates[records.len() as int]
                &&& mode == Mode::SingleFile ==> self.candidates == seq![self.target]
            },
            PhaseView::Finished { failure } => match failure {
                None => records.len() == self.candidates.len(),
                Some(RunErrorView::FileFailed) => {
                    &&& self.candidates == seq![self.target]
                    &&& records.len() == 1
                    &&& records[0].result is Err
                },
                Some(_) => self.candidates.len() == 0,
            },
        }
    }
}

/// Where a run stands.
#[derive(Debug)]
enum Phase {
    Inspecting,
    Scanning,
    Processing { job: Job, mode: Mode },
    Finished { failure: Option<RunError> },
}

/// One run over a target, step by step.
#[derive(Debug)]
pub struct Run {
    target: String,
    phase: Phase,
    candidates: Vec<String>,
    summary: RunSummary,
}

impl View for Run {
    type V = RunView;

    closed spec fn view(&self) -> RunView {
        RunView {
            target: self.target@,
            phase: match self.phase {
                Phase::Inspecting => PhaseView::Inspecting,
                Phase::Scanning => PhaseView::Scanning,
                Phase::Processing { job, mode } => PhaseView::Processing { job: job@, mode },
                Phase::Finished { failure } => PhaseView::Finished {
                    failure: failure_view(failure),
                },
            },
            candidates: texts(self.candidates@),
            summary: self.summary@,
        }
    }
}

impl Run {
    #[verifier::type_invariant]
    spec fn well_formed(self) -> bool {
        self@.wf()
    }

    /// A run that is over before it began.
    fn ended(target: String, failure: RunError) -> (run: Run)
        requires
            !(failure is FileFailed),
        ensures
            run@ == RunView::ended(target@, Some(failure@)),
    {
        let candidates: Vec<String> = Vec::new();
        assert(texts(candidates@) =~= Seq::<Seq<char>>::empty());
        Run {
            target,
            phase: Phase::Finished { failure: Some(failure) },
            candidates,
            summary: RunSummary::expecting(0),
        }
    }

    /// The run on `target` as it takes up `candidates`.
    fn taking_up(target: String, candidates: Vec<String>, mode: Mode) -> (run: Run)
        requires
            mode == Mode::SingleFile ==> texts(candidates@) == seq![target@],
        ensures
            run@ == RunView::taking_up(target@, texts(candidates@), mode),
    {
        let summary = RunSummary::expecting(candidates.len());
        if candidates.len() == 0 {
            Run { target, phase: Phase::Finished { failure: None }, candidates, summary }
        } else {
            let job = Job::begin(candidates[0].clone());
            Run { target, phase: Phase::Processing { job, mode }, candidates, summary }
        }
    }

    /// Starts the run on `target`. Without a target the run is over at once.
    pub fn start(target: Option<String>) -> (run: Run)
        ensures
            run@ == RunView::start(
                match target {
                    Some(target) => Some(target@),
                    None => None,
                },
            ),
            run@.wf(),
    {
        match target {
            None => Run::ended(String::new(), RunError::NoArgument),
            Some(target) => {
                let candidates: Vec<String> = Vec::new();
                assert(texts(candidates@) =~= Seq::<Seq<char>>::empty());
                Run {
                    target,
                    phase: Phase::Inspecting,
                    candidates,
                    summary: RunSummary::expecting(0),
                }
            },
        }
    }

    /// The target of the run.
    pub fn target(&self) -> (target: &str)
        ensures
            target@ == self@.target,
    {
        self.target.as_str()
    }

    /// The outside work that is due.
    pub fn pending(&self) -> (action: Action)
        ensures
            self@.wf(),
            self@.pending() == Some(action@),
    {
        proof {
            use_type_invariant(self);
        }
        match &self.phase {
            Phase::Inspecting => Action::Inspect { path: self.target.clone() },
            Phase::Scanning => Action::Scan { pattern: scan_pattern(self.target.as_str()) },
            Phase::Processing { job, .. } => match job.pending() {
                Some(action) => action,
                None => unreached(),
            },
            Phase::Finished { failure } => Action::Exit { status: exit_status(failure) },
        }
    }

    /// The exit status, once the run is over.
    pub fn status(&self) -> (status: Option<ExitStatus>)
        ensures
            status == self@.status(),
    {
        match &self.phase {
            Phase::Finished { failure } => Some(exit_status(failure)),
            _ => None,
        }
    }

    /// Why the run failed, once it is over and has failed.
    pub fn failure(&self) -> (failure: Option<&RunError>)
        ensures
            match failure {
                Some(error) => self@.phase == (PhaseView::Finished { failure: Some(error@) }),
                None => !(self@.phase matches PhaseView::Finished { failure: Some(_) }),
            },
    {
        match &self.phase {
            Phase::Finished { failure: Some(error) } => Some(error),
            _ => None,
        }
    }

    /// The account of the run so far.
    pub fn summary(&self) -> (summary: &RunSummary)
        ensures
            self@.wf(),
            summary@ == self@.summary,
    {
        proof {
            use_type_invariant(self);
        }
        &self.summary
    }

    /// The candidate at work, if the run is at work on one.
    pub fn current(&self) -> (candidate: Option<&str>)
        ensures
            self@.wf(),
            match candidate {
                Some(candidate) => self@.phase is Processing && candidate@
                    == self@.candidates[self@.summary.records.len() as int],
                None => !(self@.phase is Processing),
            },
    {
        proof {
            use_type_invariant(self);
        }
        match &self.phase {
            Phase::Processing { job, .. } => Some(job.candidate()),
            _ => None,
        }
    }

    /// Takes in the answer to the pending action.
    pub fn advance(self, event: Event) -> (next: Run)
        ensures
            self@.wf(),
            next@ == self@.step(event@),
            next@.wf(),
    {
        proof {
            use_type_invariant(&self);
        }
        let Run { target, phase, candidates, mut summary } = self;
        match phase {
            Phase::Inspecting => match event {
                Event::Inspected { exists, is_file, is_directory } => {
                    match classify_target(exists, is_file, is_directory) {
                        TargetKind::Missing => Run::ended(target, RunError::TargetNotFound),
                        TargetKind::File => {
                            if is_candidate(target.as_str()) {
                                let mut only: Vec<String> = Vec::new();
                                only.push(target.clone());
                                assert(texts(only@) =~= seq![target@]);
                                Run::taking_up(target, only, Mode::SingleFile)
                            } else {
                                Run::ended(target, RunError::UnsupportedFileKind)
                            }
                        },
                        TargetKind::Directory => Run {
                            target,
                            phase: Phase::Scanning,
                            candidates,
                            summary,
                        },
                        TargetKind::Other => Run::ended(target, RunError::NotFileOrDirectory),
                    }
                },
                _ => Run { target, phase: Phase::Inspecting, candidates, summary },
            },
            Phase::Scanning => match event {
                Event::ScanRejected { cause } => Run::ended(
                    target,
                    RunError::DirectoryEnumerationFailed { cause },
                ),
                Event::Scanned { entries } => match select_candidates(&entries) {
                    Err(cause) => Run::ended(
                        target,
                        RunError::DirectoryEnumerationFailed { cause },
                    ),
                    Ok(found) => Run::taking_up(target, found, Mode::Batch),
                },
                _ => Run { target, phase: Phase::Scanning, candidates, summary },
            },
            Phase::Processing { job, mode } => match job.advance(event).finish() {
                Err(job) => Run {
                    target,
                    phase: Phase::Processing { job, mode },
                    candidates,
                    summary,
                },
                Ok(result) => {
                    let done: usize = summary.processed();
                    let failed = result.is_err();
                    summary.record(candidates[done].clone(), result);
                    let phase = if done + 1 < candidates.len() {
                        Phase::Processing { job: Job::begin(candidates[done + 1].clone()), mode }
                    } else if failed && matches!(mode, Mode::SingleFile) {
                        Phase::Finished { failure: Some(RunError::FileFailed) }
                    } else {
                        Phase::Finished { failure: None }
                    };
                    Run { target, phase, candidates, summary }
                },
            },
            Phase::Finished { failure } => Run {
                target,
                phase: Phase::Finished { failure },
                candidates,
                summary,
            },
        }
    }
}

} // verus!
