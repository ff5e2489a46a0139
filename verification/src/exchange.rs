//! What passes between the decisions and the outside world: the actions that
//! the library asks its caller to perform, and the events that the caller
//! reports back.
//!
//! The library never touches a file or starts a process. It names the next
//! piece of outside work as an [`Action`]; the caller performs it and
//! answers with the matching [`Event`].

use crate::transcoder::{RequestView, TranscodeRequest};
use vstd::prelude::*;

verus! {

/// How a run ends, as the process reports it.
#[derive(Clone, Copy, Debug, PartialEq, Eq, Structural)]
pub enum ExitStatus {
    /// The run completed. In a directory run this says nothing of the single
    /// files: their failures are recorded, not fatal.
    Success,
    /// No target was named.
    NoArgument,
    /// The target does not exist, or its directory could not be enumerated.
    TargetNotFound,
    /// The target is neither a file nor a directory.
    NotFileOrDirectory,
    /// The one file of a single-file run could not be optimized.
    OptimizationFailed,
    /// The target is a file of another kind than the target format.
    UnsupportedKind,
}

impl ExitStatus {
    /// The exit code of a status.
    pub open spec fn code_of(self) -> int {
        match self {
            ExitStatus::Success => 0,
            ExitStatus::NoArgument => 1,
            ExitStatus::TargetNotFound => 2,
            ExitStatus::NotFileOrDirectory => 3,
            ExitStatus::OptimizationFailed => 4,
            ExitStatus::UnsupportedKind => 5,
        }
    }

    /// The exit code of this status.
    pub fn code(&self) -> (code: u8)
        ensures
            code == self.code_of(),
    {
        match self {
            ExitStatus::Success => 0,
            ExitStatus::NoArgument => 1,
            ExitStatus::TargetNotFound => 2,
            ExitStatus::NotFileOrDirectory => 3,
            ExitStatus::OptimizationFailed => 4,
            ExitStatus::UnsupportedKind => 5,
        }
    }
}

/// Different statuses have different exit codes, and only success has code
/// zero.
pub proof fn lemma_codes_distinct(first: ExitStatus, second: ExitStatus)
    ensures
        first.code_of() == second.code_of() ==> first == second,
        first.code_of() == 0 <==> first == ExitStatus::Success,
        0 <= first.code_of() <= 5,
{
}

/// The outcome of one file-system step as the contracts see it.
pub open spec fn report_text(report: Result<(), String>) -> Result<(), Seq<char>> {
    match report {
        Ok(_) => Ok(()),
        Err(cause) => Err(cause@),
    }
}

/// A scan entry as the contracts see it.
pub enum ScanEntryView {
    Found { path: Seq<char>, is_file: bool },
    Unreadable { cause: Seq<char> },
}

/// One result of scanning a directory.
#[derive(Debug, PartialEq, Eq)]
pub enum ScanEntry {
    /// A path that the scan found, and whether it names a regular file.
    Found { path: String, is_file: bool },
    /// A place that the scan could not read.
    Unreadable { cause: String },
}

impl View for ScanEntry {
    type V = ScanEntryView;

    open spec fn view(&self) -> ScanEntryView {
        match self {
            ScanEntry::Found { path, is_file } => ScanEntryView::Found {
                path: path@,
                is_file: *is_file,
            },
            ScanEntry::Unreadable { cause } => ScanEntryView::Unreadable { cause: cause@ },
        }
    }
}

/// The views of a list of scan entries.
pub open spec fn entry_views(entries: Seq<ScanEntry>) -> Seq<ScanEntryView> {
    entries.map_values(|entry: ScanEntry| entry@)
}

/// An action as the contracts see it.
pub enum ActionView {
    Inspect { path: Seq<char> },
    Scan { pattern: Seq<char> },
    Probe { path: Seq<char> },
    Transcode { request: RequestView },
    RemoveOriginal { path: Seq<char> },
    RenameStaging { from: Seq<char>, to: Seq<char> },
    Exit { status: ExitStatus },
}

/// The next piece of outside work.
#[derive(Debug, PartialEq, Eq)]
pub enum Action {
    /// Find out whether `path` exists, and whether it is a regular file or a
    /// directory.
    Inspect { path: String },
    /// List what matches `pattern`, and for each path found whether it is a
    /// regular file.
    Scan { pattern: String },
    /// Find out whether `path` exists.
    Probe { path: String },
    /// Run the tool on `request`.
    Transcode { request: TranscodeRequest },
    /// Remove the file at `path`.
    RemoveOriginal { path: String },
    /// Rename the file at `from` to `to`.
    RenameStaging { from: String, to: String },
    /// End the process with `status`.
    Exit { status: ExitStatus },
}

impl View for Action {
    type V = ActionView;

    open spec fn view(&self) -> ActionView {
        match self {
            Action::Inspect { path } => ActionView::Inspect { path: path@ },
            Action::Scan { pattern } => ActionView::Scan { pattern: pattern@ },
            Action::Probe { path } => ActionView::Probe { path: path@ },
            Action::Transcode { request } => ActionView::Transcode { request: request@ },
            Action::RemoveOriginal { path } => ActionView::RemoveOriginal { path: path@ },
            Action::RenameStaging { from, to } => ActionView::RenameStaging {
                from: from@,
                to: to@,
            },
            Action::Exit { status } => ActionView::Exit { status: *status },
        }
    }
}

/// An event as the contracts see it.
pub enum EventView {
    Inspected { exists: bool, is_file: bool, is_directory: bool },
    Scanned { entries: Seq<ScanEntryView> },
    ScanRejected { cause: Seq<char> },
    Probed { exists: bool },
    ToolExited { succeeded: bool, diagnostic: Seq<char> },
    OriginalRemoved { report: Result<(), Seq<char>> },
    StagingRenamed { report: Result<(), Seq<char>> },
}

/// What the outside world answered.
#[derive(Debug, PartialEq, Eq)]
pub enum Event {
    /// Answer to [`Action::Inspect`].
    Inspected { exists: bool, is_file: bool, is_directory: bool },
    /// Answer to [`Action::Scan`]: the entries in the order of the scan.
    Scanned { entries: Vec<ScanEntry> },
    /// Answer to [`Action::Scan`] where the pattern itself was refused.
    ScanRejected { cause: String },
    /// Answer to [`Action::Probe`].
    Probed { exists: bool },
    /// Answer to [`Action::Transcode`]: the tool's exit status, and the text
    /// of its error stream.
    ToolExited { succeeded: bool, diagnostic: String },
    /// Answer to [`Action::RemoveOriginal`].
    OriginalRemoved { report: Result<(), String> },
    /// Answer to [`Action::RenameStaging`].
    StagingRenamed { report: Result<(), String> },
}

impl View for Event {
    type V = EventView;

    open spec fn view(&self) -> EventView {
        match self {
            Event::Inspected { exists, is_file, is_directory } => EventView::Inspected {
                exists: *exists,
                is_file: *is_file,
                is_directory: *is_directory,
            },
            Event::Scanned { entries } => EventView::Scanned { entries: entry_views(entries@) },
            Event::ScanRejected { cause } => EventView::ScanRejected { cause: cause@ },
            Event::Probed { exists } => EventView::Probed { exists: *exists },
            Event::ToolExited { succeeded, diagnostic } => EventView::ToolExited {
                succeeded: *succeeded,
                diagnostic: diagnostic@,
            },
            Event::OriginalRemoved { report } => EventView::OriginalRemoved {
                report: report_text(*report),
            },
            Event::StagingRenamed { report } => EventView::StagingRenamed {
                report: report_text(*report),
            },
        }
    }
}

/// Whether `event` is an answer to `action`.
pub open spec fn answers(action: ActionView, event: EventView) -> bool {
    match action {
        ActionView::Inspect { .. } => event is Inspected,
        ActionView::Scan { .. } => event is Scanned || event is ScanRejected,
        ActionView::Probe { .. } => event is Probed,
        ActionView::Transcode { .. } => event is ToolExited,
        ActionView::RemoveOriginal { .. } => event is OriginalRemoved,
        ActionView::RenameStaging { .. } => event is StagingRenamed,
        ActionView::Exit { .. } => false,
    }
}

} // verus!
