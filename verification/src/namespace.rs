//! A model of the files that the protocol works on, and what the protocol
//! does to them.
//!
//! The library never sees a file. What it guarantees about files it
//! guarantees of this model: a namespace in which a removal that reports
//! success has removed its path, a rename that reports success has moved
//! its file, a step that reports failure has changed nothing, and the tool
//! writes to its staging path and to no other. Of a file system that behaves
//! so, the laws below say where the protocol leaves the original and the
//! staging file for each way in which the work on one file can end.

use crate::exchange::{ActionView, EventView};
use crate::optimizer::{Conditions, OptimizeErrorView, Optimized, Severity};
use crate::paths::{lemma_staging_differs, staging_path_of};
use vstd::prelude::*;

verus! {

/// The files of a namespace: the paths that exist, each with its content.
pub type Files = Map<Seq<char>, Seq<u8>>;

/// Whether `after` is what the files may be once `action` was performed on
/// `before` and answered with `event`.
pub open spec fn performs(before: Files, action: ActionView, event: EventView, after: Files)
    -> bool {
    match (action, event) {
        (ActionView::Inspect { .. }, EventView::Inspected { .. }) => after == before,
        (ActionView::Scan { .. }, EventView::Scanned { .. }) => after == before,
        (ActionView::Scan { .. }, EventView::ScanRejected { .. }) => after == before,
        (ActionView::Probe { path }, EventView::Probed { exists }) => {
            &&& after == before
            &&& exists == before.dom().contains(path)
        },
        (ActionView::Transcode { request }, EventView::ToolExited { succeeded, .. }) => {
            &&& after.remove(request.staging) == before.remove(request.staging)
            &&& succeeded ==> after.dom().contains(request.staging)
        },
        (ActionView::RemoveOriginal { path }, EventView::OriginalRemoved { report }) => {
            if report is Ok {
                after == before.remove(path)
            } else {
                after == before
            }
        },
        (ActionView::RenameStaging { from, to }, EventView::StagingRenamed { report }) => {
            if report is Ok {
                &&& before.dom().contains(from)
                &&& after == before.remove(from).insert(to, before[from])
            } else {
                after == before
            }
        },
        _ => false,
    }
}

/// Whether `files` tells how the namespace went while `actions` were
/// performed and answered with `events`: `files[i]` is the namespace before
/// the `i`-th action, and the last of `files` the namespace after them all.
pub open spec fn is_history(files: Seq<Files>, actions: Seq<ActionView>, events: Seq<EventView>)
    -> bool {
    &&& actions.len() == events.len()
    &&& files.len() == events.len() + 1
    &&& forall|i: int|
        0 <= i < events.len() ==> performs(files[i], actions[i], #[trigger] events[i], files[i + 1])
}

/// One way in which the namespace may go while a file is worked on under
/// `conditions`: the tool, where it succeeds, writes `written` to the staging
/// path, and where it fails leaves nothing behind.
pub open spec fn plain_history(
    source: Seq<char>,
    conditions: Conditions,
    before: Files,
    written: Seq<u8>,
) -> Seq<Files> {
    let staging = staging_path_of(source);
    let transcoded = if conditions.tool_succeeds {
        before.insert(staging, written)
    } else {
        before
    };
    let removed = if conditions.removal is Ok {
        transcoded.remove(source)
    } else {
        transcoded
    };
    let renamed = if conditions.rename is Ok {
        removed.remove(staging).insert(source, removed[staging])
    } else {
        removed
    };
    seq![before, before, transcoded, removed, renamed].take(conditions.steps() as int + 1)
}

/// The model is not empty: whatever the conditions, a namespace in which the
/// source exists or not as the conditions say has a history.
pub proof fn lemma_history_exists(
    source: Seq<char>,
    conditions: Conditions,
    before: Files,
    written: Seq<u8>,
)
    requires
        conditions.exists == before.dom().contains(source),
    ensures
        is_history(
            plain_history(source, conditions, before, written),
            conditions.actions(source),
            conditions.events(),
        ),
        plain_history(source, conditions, before, written).first() == before,
{
    let staging = staging_path_of(source);
    let files = plain_history(source, conditions, before, written);
    let actions = conditions.actions(source);
    let events = conditions.events();
    lemma_staging_differs(source);
    assert forall|i: int| 0 <= i < events.len() implies performs(
        files[i],
        actions[i],
        #[trigger] events[i],
        files[i + 1],
    ) by {
        if i == 1 {
            assert(files[2].remove(staging) =~= files[1].remove(staging));
        }
    }
}

/// Looking changes nothing: an inspection, a scan and a probe leave the
/// files as they were.
pub proof fn lemma_reading_changes_nothing(
    before: Files,
    action: ActionView,
    event: EventView,
    after: Files,
)
    requires
        performs(before, action, event, after),
        action is Inspect || action is Scan || action is Probe,
    ensures
        after == before,
{
}

/// Each step of a history is performed as its action and event say.
pub proof fn lemma_history_step(
    files: Seq<Files>,
    actions: Seq<ActionView>,
    events: Seq<EventView>,
    i: int,
)
    requires
        is_history(files, actions, events),
        0 <= i < events.len(),
    ensures
        performs(files[i], actions[i], events[i], files[i + 1]),
{
}

/// The work on one file is local to that file: whatever the conditions, the
/// namespace after it differs from the namespace before it at the source
/// and at its staging path only.
pub proof fn lemma_job_is_local(source: Seq<char>, conditions: Conditions, files: Seq<Files>)
    requires
        is_history(files, conditions.actions(source), conditions.events()),
    ensures
        files.last().remove(source).remove(staging_path_of(source)) == files.first().remove(
            source,
        ).remove(staging_path_of(source)),
{
    let staging = staging_path_of(source);
    let events = conditions.events();
    let actions = conditions.actions(source);
    let n = conditions.steps() as int;
    lemma_history_step(files, actions, events, 0);
    if n >= 2 {
        lemma_history_step(files, actions, events, 1);
        assert(files[1].remove(source).remove(staging) =~= files[1].remove(staging).remove(source));
    }
    if n >= 3 {
        lemma_history_step(files, actions, events, 2);
    }
    if n >= 4 {
        lemma_history_step(files, actions, events, 3);
    }
}

/// A file that was optimized is in place: it existed before; after the work
/// there is a file at its path, holding what the tool wrote, and none at its
/// staging path.
pub proof fn lemma_optimized_leaves_one_file(
    source: Seq<char>,
    conditions: Conditions,
    files: Seq<Files>,
)
    requires
        is_history(files, conditions.actions(source), conditions.events()),
        conditions.result() is Ok,
    ensures
        files.len() == 5,
        files.first().dom().contains(source),
        files.last().dom().contains(source),
        !files.last().dom().contains(staging_path_of(source)),
        files.last()[source] == files[2][staging_path_of(source)],
{
    let events = conditions.events();
    let actions = conditions.actions(source);
    lemma_staging_differs(source);
    lemma_history_step(files, actions, events, 0);
    lemma_history_step(files, actions, events, 1);
    lemma_history_step(files, actions, events, 2);
    lemma_history_step(files, actions, events, 3);
}

/// A failure of the tool leaves the original as it was: the file at the
/// source path is still there with the content that it had, and nothing but
/// the staging path has changed. Whatever the tool left at the staging path
/// is never given another name.
pub proof fn lemma_failed_tool_leaves_original(
    source: Seq<char>,
    conditions: Conditions,
    files: Seq<Files>,
)
    requires
        is_history(files, conditions.actions(source), conditions.events()),
        conditions.result() matches Err(error) && error is TranscodeFailed,
    ensures
        files.len() == 3,
        files.last().dom().contains(source),
        files.last()[source] == files.first()[source],
        files.last().remove(staging_path_of(source)) == files.first().remove(
            staging_path_of(source),
        ),
{
    let staging = staging_path_of(source);
    let events = conditions.events();
    let actions = conditions.actions(source);
    lemma_staging_differs(source);
    lemma_history_step(files, actions, events, 0);
    lemma_history_step(files, actions, events, 1);
    assert(files[2].remove(staging).dom().contains(source));
    assert(files[2].remove(staging)[source] == files[0].remove(staging)[source]);
}

/// A candidate that is gone when its turn comes is left alone: nothing is
/// changed.
pub proof fn lemma_missing_candidate_changes_nothing(
    source: Seq<char>,
    conditions: Conditions,
    files: Seq<Files>,
)
    requires
        is_history(files, conditions.actions(source), conditions.events()),
        conditions.result() matches Err(error) && error is NotFound,
    ensures
        files.len() == 2,
        !files.first().dom().contains(source),
        files.last() == files.first(),
{
    let events = conditions.events();
    let actions = conditions.actions(source);
    lemma_history_step(files, actions, events, 0);
}

/// A failed removal does no harm: the original is still there with the
/// content that it had, and the staging file lies beside it.
pub proof fn lemma_failed_removal_keeps_both(
    source: Seq<char>,
    conditions: Conditions,
    files: Seq<Files>,
)
    requires
        is_history(files, conditions.actions(source), conditions.events()),
        conditions.result() matches Err(error) && error is OriginalRemovalFailed,
    ensures
        files.len() == 4,
        files.last().dom().contains(source),
        files.last()[source] == files.first()[source],
        files.last().dom().contains(staging_path_of(source)),
{
    let staging = staging_path_of(source);
    let events = conditions.events();
    let actions = conditions.actions(source);
    lemma_staging_differs(source);
    lemma_history_step(files, actions, events, 0);
    lemma_history_step(files, actions, events, 1);
    lemma_history_step(files, actions, events, 2);
    assert(files[2].remove(staging).dom().contains(source));
    assert(files[2].remove(staging)[source] == files[0].remove(staging)[source]);
}

/// A failed rename is the one dangerous end: the original is gone, and what
/// was to replace it exists under the staging name only. It is reported as a
/// failed rename, which no other end is, and which alone is severe.
pub proof fn lemma_failed_rename_strands_replacement(
    source: Seq<char>,
    conditions: Conditions,
    files: Seq<Files>,
)
    requires
        is_history(files, conditions.actions(source), conditions.events()),
        conditions.removal is Ok,
        conditions.rename is Err,
        conditions.exists,
        conditions.tool_succeeds,
    ensures
        conditions.result() == Err::<Optimized, OptimizeErrorView>(
            OptimizeErrorView::RenameFailed { cause: conditions.rename->Err_0 },
        ),
        conditions.result()->Err_0.severity() == Severity::Severe,
        files.len() == 5,
        files.first().dom().contains(source),
        !files.last().dom().contains(source),
        files.last().dom().contains(staging_path_of(source)),
{
    let events = conditions.events();
    let actions = conditions.actions(source);
    lemma_staging_differs(source);
    lemma_history_step(files, actions, events, 0);
    lemma_history_step(files, actions, events, 1);
    lemma_history_step(files, actions, events, 2);
    lemma_history_step(files, actions, events, 3);
}

/// An original is never lost silently. Whatever the conditions, after the
/// work on a file that was there, either the file is still at its path with
/// the content that it had, or it was optimized, or the failure is reported
/// as severe.
pub proof fn lemma_original_never_lost_silently(
    source: Seq<char>,
    conditions: Conditions,
    files: Seq<Files>,
)
    requires
        is_history(files, conditions.actions(source), conditions.events()),
        files.first().dom().contains(source),
    ensures
        ({
            ||| files.last().dom().contains(source) && files.last()[source]
                == files.first()[source]
            ||| conditions.result() is Ok
            ||| conditions.result() matches Err(error) && error.severity()
                == Severity::Severe
        }),
{
    match conditions.result() {
        Ok(_) => {},
        Err(OptimizeErrorView::NotFound) => {
            lemma_missing_candidate_changes_nothing(source, conditions, files);
        },
        Err(OptimizeErrorView::TranscodeFailed { .. }) => {
            lemma_failed_tool_leaves_original(source, conditions, files);
        },
        Err(OptimizeErrorView::OriginalRemovalFailed { .. }) => {
            lemma_failed_removal_keeps_both(source, conditions, files);
        },
        Err(OptimizeErrorView::RenameFailed { .. }) => {},
    }
}

} // verus!
