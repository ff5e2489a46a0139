//! The replacer: puts a freshly written staging file in the place of its
//! original, in two steps, and says which step failed.
//!
//! The staging file has another name than the original, so that the tool
//! never overwrites the file it reads. No single rename can then swap the
//! two: the original is removed first, and the staging file renamed to the
//! original's name after that. Between the two steps the original is gone
//! and its replacement exists under the staging name only. A failure there
//! is told apart from every other.

use crate::exchange::{Action, ActionView, Event, EventView};
use vstd::prelude::*;

verus! {

/// A replacement outcome as the contracts see it.
pub enum ReplacementOutcomeView {
    Replaced,
    OriginalRemovalFailed { cause: Seq<char> },
    RenameFailed { cause: Seq<char> },
}

/// How a replacement ended.
#[derive(Debug, PartialEq, Eq)]
pub enum ReplacementOutcome {
    /// Both steps succeeded: the staging file now bears the original's name.
    Replaced,
    /// The original could not be removed. Original and staging file are both
    /// still there.
    OriginalRemovalFailed { cause: String },
    /// The original was removed, and the staging file could not be renamed:
    /// the original is gone and its replacement lies under the staging name.
    RenameFailed { cause: String },
}

impl View for ReplacementOutcome {
    type V = ReplacementOutcomeView;

    open spec fn view(&self) -> ReplacementOutcomeView {
        match self {
            ReplacementOutcome::Replaced => ReplacementOutcomeView::Replaced,
            ReplacementOutcome::OriginalRemovalFailed {
                cause,
            } => ReplacementOutcomeView::OriginalRemovalFailed { cause: cause@ },
            ReplacementOutcome::RenameFailed { cause } => ReplacementOutcomeView::RenameFailed {
                cause: cause@,
            },
        }
    }
}

/// The outcome of a replacement whose removal and rename report as given.
/// The rename is attempted only after a removal that succeeded, so its
/// report counts only then.
pub open spec fn replacement_outcome(
    removal: Result<(), Seq<char>>,
    rename: Result<(), Seq<char>>,
) -> ReplacementOutcomeView {
    match removal {
        Err(cause) => ReplacementOutcomeView::OriginalRemovalFailed { cause },
        Ok(_) => match rename {
            Err(cause) => ReplacementOutcomeView::RenameFailed { cause },
            Ok(_) => ReplacementOutcomeView::Replaced,
        },
    }
}

/// Where a replacement stands, as the contracts see it.
pub enum ReplaceStageView {
    Removing,
    Renaming,
    Settled { outcome: ReplacementOutcomeView },
}

/// A replacement as the contracts see it.
pub struct ReplacementView {
    pub source: Seq<char>,
    pub staging: Seq<char>,
    pub stage: ReplaceStageView,
}

impl ReplacementView {
    /// A replacement of `source` by `staging` of which nothing is done yet.
    pub open spec fn begin(source: Seq<char>, staging: Seq<char>) -> ReplacementView {
        ReplacementView { source, staging, stage: ReplaceStageView::Removing }
    }

    /// The step that is due: the removal first, the rename after it, nothing
    /// once the outcome is settled.
    pub open spec fn pending(self) -> Option<ActionView> {
        match self.stage {
            ReplaceStageView::Removing => Some(ActionView::RemoveOriginal { path: self.source }),
            ReplaceStageView::Renaming => Some(
                ActionView::RenameStaging { from: self.staging, to: self.source },
            ),
            ReplaceStageView::Settled { .. } => None,
        }
    }

    /// The outcome, once it is settled.
    pub open spec fn outcome(self) -> Option<ReplacementOutcomeView> {
        match self.stage {
            ReplaceStageView::Settled { outcome } => Some(outcome),
            _ => None,
        }
    }

    /// The replacement after `event`. An event that does not answer the
    /// pending step changes nothing.
    pub open spec fn step(self, event: EventView) -> ReplacementView {
        match (self.stage, event) {
            (ReplaceStageView::Removing, EventView::OriginalRemoved { report: Ok(_) }) => {
                ReplacementView { stage: ReplaceStageView::Renaming, ..self }
            },
            (ReplaceStageView::Removing, EventView::OriginalRemoved { report: Err(cause) }) => {
                ReplacementView {
                    stage: ReplaceStageView::Settled {
                        outcome: ReplacementOutcomeView::OriginalRemovalFailed { cause },
                    },
                    ..self
                }
            },
            (ReplaceStageView::Renaming, EventView::StagingRenamed { report: Ok(_) }) => {
                ReplacementView {
                    stage: ReplaceStageView::Settled { outcome: ReplacementOutcomeView::Replaced },
                    ..self
                }
            },
            (ReplaceStageView::Renaming, EventView::StagingRenamed { report: Err(cause) }) => {
                ReplacementView {
                    stage: ReplaceStageView::Settled {
                        outcome: ReplacementOutcomeView::RenameFailed { cause },
                    },
                    ..self
                }
            },
            _ => self,
        }
    }
}

/// Where a replacement stands.
#[derive(Debug)]
enum ReplaceStage {
    Removing,
    Renaming,
    Settled { outcome: ReplacementOutcome },
}

/// The replacement of one original by its staging file, step by step.
#[derive(Debug)]
pub struct Replacement {
    source: String,
    staging: String,
    stage: ReplaceStage,
}

impl View for Replacement {
    type V = ReplacementView;

    closed spec fn view(&self) -> ReplacementView {
        ReplacementView {
            source: self.source@,
            staging: self.staging@,
            stage: match self.stage {
                ReplaceStage::Removing => ReplaceStageView::Removing,
                ReplaceStage::Renaming => ReplaceStageView::Renaming,
                ReplaceStage::Settled { outcome } => ReplaceStageView::Settled {
                    outcome: outcome@,
                },
            },
        }
    }
}

impl Replacement {
    /// Starts the replacement of `source` by `staging`.
    pub fn begin(source: String, staging: String) -> (replacement: Replacement)
        ensures
            replacement@ == ReplacementView::begin(source@, staging@),
    {
        Replacement { source, staging, stage: ReplaceStage::Removing }
    }

    /// The step that is due, if any.
    pub fn pending(&self) -> (action: Option<Action>)
        ensures
            match action {
                Some(action) => self@.pending() == Some(action@),
                None => self@.pending() is None,
            },
    {
        match &self.stage {
            ReplaceStage::Removing => Some(Action::RemoveOriginal { path: self.source.clone() }),
            ReplaceStage::Renaming => Some(
                Action::RenameStaging { from: self.staging.clone(), to: self.source.clone() },
            ),
            ReplaceStage::Settled { .. } => None,
        }
    }

    /// Whether the outcome is settled.
    pub fn is_settled(&self) -> (settled: bool)
        ensures
            settled == self@.outcome().is_some(),
    {
        match &self.stage {
            ReplaceStage::Settled { .. } => true,
            _ => false,
        }
    }

    /// Takes in the report of the pending step.
    pub fn advance(self, event: Event) -> (next: Replacement)
        ensures
            next@ == self@.step(event@),
    {
        let Replacement { source, staging, stage } = self;
        let stage = match (stage, event) {
            (ReplaceStage::Removing, Event::OriginalRemoved { report: Ok(_) }) => {
                ReplaceStage::Renaming
            },
            (ReplaceStage::Removing, Event::OriginalRemoved { report: Err(cause) }) => {
                ReplaceStage::Settled {
                    outcome: ReplacementOutcome::OriginalRemovalFailed { cause },
                }
            },
            (ReplaceStage::Renaming, Event::StagingRenamed { report: Ok(_) }) => {
                ReplaceStage::Settled { outcome: ReplacementOutcome::Replaced }
            },
            (ReplaceStage::Renaming, Event::StagingRenamed { report: Err(cause) }) => {
                ReplaceStage::Settled { outcome: ReplacementOutcome::RenameFailed { cause } }
            },
            (stage, _) => stage,
        };
        Replacement { source, staging, stage }
    }

    /// Ends the replacement and hands out its outcome if it is settled; hands
    /// the replacement back otherwise.
    pub fn into_outcome(self) -> (outcome: Result<ReplacementOutcome, Replacement>)
        ensures
            match outcome {
                Ok(outcome) => self@.outcome() == Some(outcome@),
                Err(replacement) => self@.outcome() is None && replacement@ == self@,
            },
    {
        let Replacement { source, staging, stage } = self;
        match stage {
            ReplaceStage::Settled { outcome } => Ok(outcome),
            stage => Err(Replacement { source, staging, stage }),
        }
    }
}

/// A replacement whose two steps report `removal` and `rename` asks for the
/// removal of the source first, asks for the rename of the staging file to
/// the source's name only after a removal that succeeded, and then settles
/// on the outcome that these reports determine.
pub proof fn lemma_replacement_runs(
    source: Seq<char>,
    staging: Seq<char>,
    removal: Result<(), Seq<char>>,
    rename: Result<(), Seq<char>>,
)
    ensures
        ({
            let start = ReplacementView::begin(source, staging);
            let removed = start.step(EventView::OriginalRemoved { report: removal });
            let renamed = removed.step(EventView::StagingRenamed { report: rename });
            &&& start.pending() == Some(ActionView::RemoveOriginal { path: source })
            &&& removal is Ok ==> removed.pending() == Some(
                ActionView::RenameStaging { from: staging, to: source },
            )
            &&& removal is Err ==> removed.pending() is None
            &&& renamed.pending() is None
            &&& renamed.outcome() == Some(replacement_outcome(removal, rename))
        }),
{
}

/// The three outcomes are told apart: a replacement is reported as done only
/// if both steps succeeded, and a failed rename is never reported as a
/// failed removal, whatever the causes say.
pub proof fn lemma_outcomes_distinct(removal: Result<(), Seq<char>>, rename: Result<(), Seq<char>>)
    ensures
        replacement_outcome(removal, rename) is Replaced <==> removal is Ok && rename is Ok,
        replacement_outcome(removal, rename) is OriginalRemovalFailed <==> removal is Err,
        replacement_outcome(removal, rename) is RenameFailed <==> removal is Ok && rename is Err,
{
}

} // verus!
