//! What holds of every pull, whatever the repository and the remote do.
//!
//! The laws speak of the machine's mathematical model: of single turns, and
//! of runs, in which a driver feeds the machine one event after another.

use vstd::prelude::*;
use crate::branch::{branch_of_head, resolved_branch};
use crate::deletions::{deleted_paths, TreeChangeView};
use crate::error::GitErrorView;
use crate::merge::MergeAnalysis;
use crate::status::{any_local_change, FileStatus};
use crate::pull::{
    fetch_verdict,
    pull_remote,
    PullActionView,
    PullEventView,
    PullOutcome,
    PullStage,
    PullStateView,
    PullSuccessView,
};

verus! {

/// The state a pull is in after the driver has reported `events`, in order,
/// starting from `state`.
pub open spec fn run(state: PullStateView, events: Seq<PullEventView>) -> PullStateView
    decreases events.len(),
{
    if events.len() == 0 {
        state
    } else {
        run(state, events.drop_last()).advance(events.last())
    }
}

/// Every event of the run reports on the action that was pending when it came.
pub open spec fn answered(state: PullStateView, events: Seq<PullEventView>) -> bool {
    forall|i: int|
        0 <= i < events.len() ==> run(state, #[trigger] events.take(i)).awaits(events[i])
}

/// A stash has been saved and nothing has yet been asked to be done with it.
pub open spec fn holds_stash(state: PullStateView) -> bool {
    match state {
        PullStateView::Snapshotting { stashed } => stashed,
        PullStateView::ReadingHead { stashed, .. } => stashed,
        PullStateView::ReadingDefault { stashed, .. } => stashed,
        PullStateView::Fetching { stashed, .. } => stashed,
        PullStateView::Applying { stashed, .. } => stashed,
        PullStateView::Diffing { stashed, .. } => stashed,
        _ => false,
    }
}

/// The pull has failed with `error`: all that is left is to reapply the stash
/// and to report the error.
pub open spec fn failing_with(state: PullStateView, error: GitErrorView) -> bool {
    state == (PullStateView::Restoring { verdict: Err(error) }) || state == (
    PullStateView::Finished { result: Err(error) })
}

/// The pull has found nothing new: all that is left is to dispose of the stash
/// and to report that.
pub open spec fn winding_up_unchanged(state: PullStateView) -> bool {
    state == (PullStateView::Restoring { verdict: Ok(PullSuccessView::UpToDate) }) || state == (
    PullStateView::Dropping { success: PullSuccessView::UpToDate }) || state == (
    PullStateView::Finished { result: Ok(PullOutcome::UpToDate) })
}

/// The fast-forward is applied and deleted `paths`: what is left is to dispose
/// of the stash, to remove the paths and to report the fast-forward.
/// `removal_due` tells whether the paths are still to be removed.
pub open spec fn winding_up_forwarded(
    state: PullStateView,
    paths: Seq<Seq<char>>,
    removal_due: bool,
) -> bool {
    let success = PullSuccessView::FastForwarded { deleted: paths };
    if removal_due {
        state == (PullStateView::Restoring { verdict: Ok(success) }) || state == (
        PullStateView::Dropping { success }) || state == (PullStateView::Removing { paths })
    } else {
        state == (PullStateView::Finished { result: Ok(PullOutcome::FastForwarded) })
    }
}

/// A run up to its `i`-th event is a run of the events before it.
proof fn lemma_run_prefix(state: PullStateView, events: Seq<PullEventView>, i: int)
    requires
        0 <= i < events.len(),
    ensures
        events.drop_last().take(i) == events.take(i),
        events.take(events.len() as int) == events,
{
    assert(events.drop_last().take(i) =~= events.take(i));
    assert(events.take(events.len() as int) =~= events);
}

/// The course of a pull is kept: a report on the pending action moves the
/// pull to an action that stands later in the course, and any other event
/// changes nothing.
///
/// So the stash is saved before anything is fetched, the fetch comes before
/// the stash is reapplied or dropped and before any path is removed, and no
/// action is asked for twice.
pub proof fn lemma_course_is_kept(state: PullStateView, event: PullEventView)
    ensures
        state.awaits(event) ==> state.advance(event).pending().order() > state.pending().order(),
        !state.awaits(event) ==> state.advance(event) == state,
{
}

/// A pull goes through its stages in one direction: from clean to stashed or
/// straight to fetching, from stashed to fetching, from fetching to succeeded,
/// and from any of them to failed. Nothing leads back, and nothing leads out
/// of failed. A pull that has succeeded fails only where the difference of
/// the fast-forward it applied cannot be had.
pub proof fn lemma_stages_follow_each_other(state: PullStateView, event: PullEventView)
    ensures
        ({
            let before = state.stage();
            let after = state.advance(event).stage();
            match before {
                PullStage::Clean => !(after is Succeeded),
                PullStage::Stashed => !(after is Clean) && !(after is Succeeded),
                PullStage::Fetching => !(after is Clean) && !(after is Stashed),
                PullStage::Succeeded => after is Succeeded || after is Failed,
                PullStage::Failed => after is Failed,
            }
        }),
        state.stage() is Succeeded && state.advance(event).stage() is Failed ==> state is Diffing,
{
}

/// A pull ends: a run in which every event reports on the pending action has
/// moved at least as many places along the course as it has events, and the
/// course has eleven places after the first.
pub proof fn lemma_pull_ends(state: PullStateView, events: Seq<PullEventView>)
    requires
        answered(state, events),
    ensures
        run(state, events).pending().order() >= state.pending().order() + events.len(),
        events.len() <= 11,
    decreases events.len(),
{
    if events.len() > 0 {
        let before = events.drop_last();
        assert forall|i: int| 0 <= i < before.len() implies run(
            state,
            #[trigger] before.take(i),
        ).awaits(before[i]) by {
            lemma_run_prefix(state, events, i);
            assert(run(state, events.take(i)).awaits(events[i]));
        }
        lemma_pull_ends(state, before);
        let last = events.len() - 1;
        assert(events.take(last) =~= before);
        assert(run(state, events.take(last)).awaits(events[last]));
        lemma_course_is_kept(run(state, before), events.last());
    }
}

/// A pull never turns back: whatever is reported, the action pending after a
/// run stands no earlier in the course than the one pending before it.
pub proof fn lemma_course_never_turns_back(state: PullStateView, events: Seq<PullEventView>)
    ensures
        run(state, events).pending().order() >= state.pending().order(),
    decreases events.len(),
{
    if events.len() > 0 {
        lemma_course_never_turns_back(state, events.drop_last());
        lemma_course_is_kept(run(state, events.drop_last()), events.last());
    }
}

/// A stash is saved exactly when there are local changes. With a change in
/// the listing, the pull asks for the stash first, and holds it once it is
/// saved. Without one it goes on to record the tree of `HEAD`, and whatever is
/// reported afterwards, never asks for a stash.
pub proof fn lemma_stash_is_saved_for_local_changes_only(
    statuses: Seq<FileStatus>,
    rest: Seq<PullEventView>,
)
    ensures
        ({
            let listed = PullStateView::Inspecting.advance(
                PullEventView::StatusListed(Ok(statuses)),
            );
            if any_local_change(statuses) {
                &&& listed.pending() is SaveStash
                &&& holds_stash(listed.advance(PullEventView::StashSaved(Ok(()))))
            } else {
                &&& listed.pending() == PullActionView::RecordHeadTree
                &&& !holds_stash(listed)
                &&& !(run(listed, rest).pending() is SaveStash)
            }
        }),
{
    let listed = PullStateView::Inspecting.advance(PullEventView::StatusListed(Ok(statuses)));
    lemma_course_never_turns_back(listed, rest);
}

/// No stash is left behind: from a state that holds a stash, a run either
/// still holds it or has come to the point where the stash is reapplied.
/// A finished pull holds no stash, so none finishes without that.
pub proof fn lemma_stash_is_never_left_behind(state: PullStateView, events: Seq<PullEventView>)
    requires
        holds_stash(state),
    ensures
        holds_stash(run(state, events)) || exists|i: int|
            0 <= i <= events.len() && run(state, #[trigger] events.take(i)).pending()
                == PullActionView::RestoreStash,
    decreases events.len(),
{
    if events.len() > 0 {
        let before = events.drop_last();
        lemma_stash_is_never_left_behind(state, before);
        if holds_stash(run(state, before)) {
            if !holds_stash(run(state, events)) {
                lemma_run_prefix(state, events, 0);
                assert(run(state, events.take(events.len() as int)).pending()
                    == PullActionView::RestoreStash);
            }
        } else {
            let i = choose|i: int|
                0 <= i <= before.len() && run(state, #[trigger] before.take(i)).pending()
                    == PullActionView::RestoreStash;
            assert(before.take(i) =~= events.take(i));
        }
    }
}

/// After a successful pull the remote wins: when the stash does not apply, it
/// is dropped.
pub proof fn lemma_unapplied_stash_is_dropped(success: PullSuccessView)
    ensures
        (PullStateView::Restoring { verdict: Ok(success) }).advance(
            PullEventView::StashRestored { applied: false },
        ).pending() == PullActionView::DropStash,
{
}

/// The branch that a pull fetches is the resolved branch: the one `HEAD` is
/// on, and only when it is on none does the pull ask for the remote's default
/// and take that, or the fallback. It is fetched from the one remote, by name.
pub proof fn lemma_pull_fetches_the_resolved_branch(
    state: PullStateView,
    head_name: Option<Seq<char>>,
    advertised: Option<Seq<char>>,
)
    requires
        state is ReadingHead,
    ensures
        ({
            let read = state.advance(PullEventView::HeadRead(head_name));
            let fetch = PullActionView::FetchAndAnalyze {
                remote: pull_remote(),
                branch: resolved_branch(head_name, advertised),
            };
            if branch_of_head(head_name) is Some {
                read.pending() == fetch
            } else {
                &&& read.pending() == (PullActionView::ReadRemoteDefault { remote: pull_remote() })
                &&& read.advance(PullEventView::RemoteDefaultRead(advertised)).pending() == fetch
            }
        }),
{
}

/// A failed fetch is reported and undone. When the fetch fails with an error,
/// or finds that history has diverged, then whatever is reported afterwards,
/// the pull only ever asks for the stash to be reapplied, and that only if it
/// saved one, and finishes with that error. It applies no fast-forward, drops
/// no stash and removes no path.
pub proof fn lemma_failed_fetch_is_undone_and_reported(
    state: PullStateView,
    fetched: Result<MergeAnalysis, GitErrorView>,
    error: GitErrorView,
    rest: Seq<PullEventView>,
)
    requires
        state is Fetching,
        fetch_verdict(fetched) == Some(Err::<PullSuccessView, GitErrorView>(error)),
    ensures
        ({
            let action = run(state.advance(PullEventView::Fetched(fetched)), rest).pending();
            action == (PullActionView::Finish { result: Err(error) }) || (holds_stash(state)
                && action == PullActionView::RestoreStash)
        }),
        holds_stash(state) ==> state.advance(PullEventView::Fetched(fetched)).pending()
            == PullActionView::RestoreStash,
{
    let failed = state.advance(PullEventView::Fetched(fetched));
    lemma_failure_stays(failed, error, rest);
    if !holds_stash(state) {
        lemma_finished_stays(failed, rest);
    }
}

/// A pull that is over stays as it is.
proof fn lemma_finished_stays(state: PullStateView, events: Seq<PullEventView>)
    requires
        state is Finished,
    ensures
        run(state, events) == state,
    decreases events.len(),
{
    if events.len() > 0 {
        lemma_finished_stays(state, events.drop_last());
    }
}

/// A pull that has failed stays failed with the same error.
proof fn lemma_failure_stays(state: PullStateView, error: GitErrorView, events: Seq<PullEventView>)
    requires
        failing_with(state, error),
    ensures
        failing_with(run(state, events), error),
    decreases events.len(),
{
    if events.len() > 0 {
        lemma_failure_stays(state, error, events.drop_last());
    }
}

/// An up-to-date pull changes nothing. When the analysis finds nothing new,
/// then whatever is reported afterwards, the pull only ever asks for the stash
/// to be reapplied or dropped, and that only if it saved one, and finishes
/// with the up-to-date outcome. It applies no fast-forward and removes no path.
pub proof fn lemma_up_to_date_pull_changes_nothing(
    state: PullStateView,
    fetched: Result<MergeAnalysis, GitErrorView>,
    rest: Seq<PullEventView>,
)
    requires
        state is Fetching,
        fetch_verdict(fetched) == Some(
            Ok::<PullSuccessView, GitErrorView>(PullSuccessView::UpToDate),
        ),
    ensures
        ({
            let action = run(state.advance(PullEventView::Fetched(fetched)), rest).pending();
            action == (PullActionView::Finish { result: Ok(PullOutcome::UpToDate) }) || (
            holds_stash(state) && (action == PullActionView::RestoreStash || action
                == PullActionView::DropStash))
        }),
        holds_stash(state) ==> state.advance(PullEventView::Fetched(fetched)).pending()
            == PullActionView::RestoreStash,
{
    let found = state.advance(PullEventView::Fetched(fetched));
    lemma_unchanged_stays(found, rest);
    if !holds_stash(state) {
        lemma_finished_stays(found, rest);
    }
}

/// A pull that found nothing new stays on its way to saying so.
proof fn lemma_unchanged_stays(state: PullStateView, events: Seq<PullEventView>)
    requires
        winding_up_unchanged(state),
    ensures
        winding_up_unchanged(run(state, events)),
    decreases events.len(),
{
    if events.len() > 0 {
        lemma_unchanged_stays(state, events.drop_last());
    }
}

/// Deletions are enforced. Once the difference of a fast-forward is known,
/// then whatever is reported afterwards, the pull only ever asks for the stash
/// to be reapplied or dropped, and that only if it saved one, and for the
/// removal of exactly the paths that the difference deletes; and it finishes,
/// with the fast-forward outcome, only after it has asked for that removal.
pub proof fn lemma_deletions_are_enforced(
    state: PullStateView,
    changes: Seq<TreeChangeView>,
    rest: Seq<PullEventView>,
)
    requires
        state is Diffing,
    ensures
        ({
            let diffed = state.advance(PullEventView::TreesDiffed(Ok(changes)));
            let removal = PullActionView::RemovePaths { paths: deleted_paths(changes) };
            let action = run(diffed, rest).pending();
            &&& action == removal || action == (PullActionView::Finish {
                result: Ok(PullOutcome::FastForwarded),
            }) || (holds_stash(state) && (action == PullActionView::RestoreStash || action
                == PullActionView::DropStash))
            &&& action is Finish ==> exists|i: int|
                0 <= i <= rest.len() && run(diffed, #[trigger] rest.take(i)).pending() == removal
        }),
{
    let diffed = state.advance(PullEventView::TreesDiffed(Ok(changes)));
    lemma_forwarded_stays(diffed, deleted_paths(changes), rest);
    if !holds_stash(state) {
        lemma_removal_is_next(deleted_paths(changes), rest);
    }
}

/// From the removal of the deleted paths, a pull goes nowhere but to its end.
proof fn lemma_removal_is_next(paths: Seq<Seq<char>>, events: Seq<PullEventView>)
    ensures
        ({
            let end = run(PullStateView::Removing { paths }, events);
            end == (PullStateView::Removing { paths }) || end == (PullStateView::Finished {
                result: Ok(PullOutcome::FastForwarded),
            })
        }),
    decreases events.len(),
{
    if events.len() > 0 {
        lemma_removal_is_next(paths, events.drop_last());
    }
}

/// A pull that has applied a fast-forward stays on its way through the
/// removal of the deleted paths to its end.
proof fn lemma_forwarded_stays(
    state: PullStateView,
    paths: Seq<Seq<char>>,
    events: Seq<PullEventView>,
)
    requires
        winding_up_forwarded(state, paths, true),
    ensures
        winding_up_forwarded(run(state, events), paths, true) || (winding_up_forwarded(
            run(state, events),
            paths,
            false,
        ) && exists|i: int|
            0 <= i <= events.len() && run(state, #[trigger] events.take(i)).pending() == (
            PullActionView::RemovePaths { paths })),
    decreases events.len(),
{
    if events.len() > 0 {
        let before = events.drop_last();
        lemma_forwarded_stays(state, paths, before);
        if winding_up_forwarded(run(state, before), paths, true) {
            if !winding_up_forwarded(run(state, events), paths, true) {
                assert(run(state, before) == (PullStateView::Removing { paths }));
                assert(before =~= events.take(events.len() - 1));
            }
        } else {
            let i = choose|i: int|
                0 <= i <= before.len() && run(state, #[trigger] before.take(i)).pending() == (
                PullActionView::RemovePaths { paths });
            assert(before.take(i) =~= events.take(i));
        }
    }
}

} // verus!
