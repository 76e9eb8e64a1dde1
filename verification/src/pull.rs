//! The stash-protected pull: a state machine that makes a pull safe to run on
//! a working copy with uncommitted edits.
//!
//! The machine decides; whoever drives it touches the repository. In every
//! state one action is pending. The driver performs it, reports what came of
//! it as an event, and the machine moves on, until the pending action is to
//! finish with the pull's result.
//!
//! The course of a pull:
//!
//! 1. List the status of the working copy. With local changes, save a stash
//!    of them, untracked files included.
//! 2. Record the tree of `HEAD` as it is before anything is fetched.
//! 3. Resolve the branch, fetch it from the remote and analyse how local and
//!    fetched history relate. Up to date: the pull has succeeded. Fast-forward:
//!    apply it, then read off which paths it deleted. Diverged, or any error:
//!    the pull has failed.
//! 4. Dispose of the stash, if one was saved. After success it is reapplied,
//!    and dropped if it does not apply: the remote wins. After failure it is
//!    reapplied, so that working tree and index are as the caller left them.
//! 5. After a fast-forward, remove from the working directory every path that
//!    it deleted: reapplying a stash can bring such paths back.
//! 6. Finish with the outcome, or with the error that made the pull fail.

use vstd::prelude::*;
use crate::branch::{
    branch_of_head,
    branch_reference,
    default_branch,
    head_branch,
    reference_of_branch,
    resolved_branch,
};
use crate::deletions::{collect_deleted, deleted_paths, TreeChange, TreeChangeView};
use crate::error::{result_view, GitError, GitErrorView};
use crate::merge::{classification, classify, MergeAnalysis, MergeClassification};
use crate::status::{any_local_change, has_local_changes, FileStatus};
use crate::text::copy_all;

verus! {

/// How a pull ended when it did not fail.
#[derive(Debug, Clone, Copy, PartialEq, Eq)]
pub enum PullOutcome {
    /// Nothing new was fetched.
    UpToDate,
    /// The local branch was moved forward to the fetched commit.
    FastForwarded,
}

impl DeepView for PullOutcome {
    type V = PullOutcome;

    open spec fn deep_view(&self) -> PullOutcome {
        *self
    }
}

impl PullOutcome {
    /// The status message of this outcome.
    pub open spec fn text(self) -> Seq<char> {
        match self {
            PullOutcome::UpToDate => "Already up to date"@,
            PullOutcome::FastForwarded => "Fast-forward merge completed"@,
        }
    }

    /// The status message shown to the caller.
    pub fn message(&self) -> (text: String)
        ensures
            text@ == self.text(),
    {
        match self {
            PullOutcome::UpToDate => "Already up to date".to_owned(),
            PullOutcome::FastForwarded => "Fast-forward merge completed".to_owned(),
        }
    }
}

/// The five stages that a pull goes through.
#[derive(Debug, Clone, Copy, PartialEq, Eq)]
pub enum PullStage {
    /// Nothing is stashed and nothing fetched.
    Clean,
    /// The local changes are stashed.
    Stashed,
    /// The branch is being resolved, fetched, analysed and, where possible,
    /// fast-forwarded.
    Fetching,
    /// The pull found nothing new or has applied a fast-forward.
    Succeeded,
    /// The pull met an error or diverged history.
    Failed,
}

/// A successful fetch-and-apply, with what is still to be done for it.
#[derive(Debug, PartialEq, Eq)]
pub enum PullSuccess {
    UpToDate,
    /// The fast-forward deleted these paths.
    FastForwarded { deleted: Vec<String> },
}

/// Mathematical value of a [`PullSuccess`].
pub enum PullSuccessView {
    UpToDate,
    FastForwarded { deleted: Seq<Seq<char>> },
}

impl DeepView for PullSuccess {
    type V = PullSuccessView;

    open spec fn deep_view(&self) -> PullSuccessView {
        match *self {
            PullSuccess::UpToDate => PullSuccessView::UpToDate,
            PullSuccess::FastForwarded { deleted } => PullSuccessView::FastForwarded {
                deleted: deleted.deep_view(),
            },
        }
    }
}

impl View for PullSuccess {
    type V = PullSuccessView;

    open spec fn view(&self) -> PullSuccessView {
        self.deep_view()
    }
}

/// What the driver reports back to the machine.
#[derive(Debug, PartialEq, Eq)]
pub enum PullEvent {
    /// The status of every path of the working copy, or why it cannot be listed.
    StatusListed(Result<Vec<FileStatus>, GitError>),
    /// The stash was saved, or could not be.
    StashSaved(Result<(), GitError>),
    /// The identity of the tree of `HEAD`.
    HeadTreeRecorded(Result<String, GitError>),
    /// The name of the reference that `HEAD` resolves to, if it resolves and
    /// the name reads as text.
    HeadRead(Option<String>),
    /// The default branch that the remote advertises, if it can be had.
    RemoteDefaultRead(Option<String>),
    /// The branch was fetched and analysed, or an error stopped that.
    Fetched(Result<MergeAnalysis, GitError>),
    /// The fast-forward was applied; the payload is the new tree of `HEAD`.
    FastForwardApplied(Result<String, GitError>),
    /// The difference from the old tree to the new.
    TreesDiffed(Result<Vec<TreeChange>, GitError>),
    /// The stash was reapplied and removed, or did not apply and is still
    /// there.
    StashRestored { applied: bool },
    /// The stash was dropped.
    StashDropped,
    /// The paths were removed, as far as they were there.
    PathsRemoved,
}

/// Mathematical value of a [`PullEvent`].
pub enum PullEventView {
    StatusListed(Result<Seq<FileStatus>, GitErrorView>),
    StashSaved(Result<(), GitErrorView>),
    HeadTreeRecorded(Result<Seq<char>, GitErrorView>),
    HeadRead(Option<Seq<char>>),
    RemoteDefaultRead(Option<Seq<char>>),
    Fetched(Result<MergeAnalysis, GitErrorView>),
    FastForwardApplied(Result<Seq<char>, GitErrorView>),
    TreesDiffed(Result<Seq<TreeChangeView>, GitErrorView>),
    StashRestored { applied: bool },
    StashDropped,
    PathsRemoved,
}

impl DeepView for PullEvent {
    type V = PullEventView;

    open spec fn deep_view(&self) -> PullEventView {
        match *self {
            PullEvent::StatusListed(listed) => PullEventView::StatusListed(
                match listed {
                    Ok(statuses) => Ok(statuses@),
                    Err(e) => Err(e@),
                },
            ),
            PullEvent::StashSaved(saved) => PullEventView::StashSaved(result_view(saved)),
            PullEvent::HeadTreeRecorded(tree) => PullEventView::HeadTreeRecorded(
                result_view(tree),
            ),
            PullEvent::HeadRead(name) => PullEventView::HeadRead(name.deep_view()),
            PullEvent::RemoteDefaultRead(advertised) => PullEventView::RemoteDefaultRead(
                advertised.deep_view(),
            ),
            PullEvent::Fetched(fetched) => PullEventView::Fetched(
                match fetched {
                    Ok(analysis) => Ok(analysis),
                    Err(e) => Err(e@),
                },
            ),
            PullEvent::FastForwardApplied(tree) => PullEventView::FastForwardApplied(
                result_view(tree),
            ),
            PullEvent::TreesDiffed(diffed) => PullEventView::TreesDiffed(result_view(diffed)),
            PullEvent::StashRestored { applied } => PullEventView::StashRestored { applied },
            PullEvent::StashDropped => PullEventView::StashDropped,
            PullEvent::PathsRemoved => PullEventView::PathsRemoved,
        }
    }
}

impl View for PullEvent {
    type V = PullEventView;

    open spec fn view(&self) -> PullEventView {
        self.deep_view()
    }
}

/// What the machine asks the driver to do.
#[derive(Debug, PartialEq, Eq)]
pub enum PullAction {
    /// List the status of every path of the working copy.
    ListStatus,
    /// Save the uncommitted changes as a stash, signed and described as given.
    /// The stash takes in what is staged, what is changed in the working tree
    /// and the files that are not tracked.
    SaveStash { author: String, email: String, message: String },
    /// Read the identity of the tree of `HEAD`.
    RecordHeadTree,
    /// Read the name of the reference that `HEAD` resolves to.
    ReadHead,
    /// Read the default branch that the remote advertises.
    ReadRemoteDefault { remote: String },
    /// Fetch this one branch from the remote, then analyse how `HEAD` and the
    /// fetched commit relate.
    FetchAndAnalyze { remote: String, branch: String },
    /// Move the reference, creating it if need be, to the fetched commit, point
    /// `HEAD` at it and check it out.
    ApplyFastForward { reference: String },
    /// Compute the difference between two trees.
    DiffTrees { old_tree: String, new_tree: String },
    /// Reapply the stash, working tree and index both, so that what was staged
    /// is staged again, and remove it.
    RestoreStash,
    /// Remove the stash without applying it.
    DropStash,
    /// Remove these paths from the working directory where they exist.
    RemovePaths { paths: Vec<String> },
    /// Stop; the pull has this result.
    Finish { result: Result<PullOutcome, GitError> },
}

/// Mathematical value of a [`PullAction`].
pub enum PullActionView {
    ListStatus,
    SaveStash { author: Seq<char>, email: Seq<char>, message: Seq<char> },
    RecordHeadTree,
    ReadHead,
    ReadRemoteDefault { remote: Seq<char> },
    FetchAndAnalyze { remote: Seq<char>, branch: Seq<char> },
    ApplyFastForward { reference: Seq<char> },
    DiffTrees { old_tree: Seq<char>, new_tree: Seq<char> },
    RestoreStash,
    DropStash,
    RemovePaths { paths: Seq<Seq<char>> },
    Finish { result: Result<PullOutcome, GitErrorView> },
}

impl DeepView for PullAction {
    type V = PullActionView;

    open spec fn deep_view(&self) -> PullActionView {
        match *self {
            PullAction::ListStatus => PullActionView::ListStatus,
            PullAction::SaveStash { author, email, message } => PullActionView::SaveStash {
                author: author@,
                email: email@,
                message: message@,
            },
            PullAction::RecordHeadTree => PullActionView::RecordHeadTree,
            PullAction::ReadHead => PullActionView::ReadHead,
            PullAction::ReadRemoteDefault { remote } => PullActionView::ReadRemoteDefault {
                remote: remote@,
            },
            PullAction::FetchAndAnalyze { remote, branch } => PullActionView::FetchAndAnalyze {
                remote: remote@,
                branch: branch@,
            },
            PullAction::ApplyFastForward { reference } => PullActionView::ApplyFastForward {
                reference: reference@,
            },
            PullAction::DiffTrees { old_tree, new_tree } => PullActionView::DiffTrees {
                old_tree: old_tree@,
                new_tree: new_tree@,
            },
            PullAction::RestoreStash => PullActionView::RestoreStash,
            PullAction::DropStash => PullActionView::DropStash,
            PullAction::RemovePaths { paths } => PullActionView::RemovePaths {
                paths: paths.deep_view(),
            },
            PullAction::Finish { result } => PullActionView::Finish { result: result_view(result) },
        }
    }
}

impl View for PullAction {
    type V = PullActionView;

    open spec fn view(&self) -> PullActionView {
        self.deep_view()
    }
}

/// Where a pull stands. Each state has one pending action.
#[derive(Debug, PartialEq, Eq)]
pub enum PullState {
    /// Nothing has been done; the status is being listed.
    Inspecting,
    /// Local changes were found; the stash is being saved.
    Stashing,
    /// The tree of `HEAD` is being recorded. `stashed` tells whether a stash
    /// was saved, here and below.
    Snapshotting { stashed: bool },
    /// The reference behind `HEAD` is being read.
    ReadingHead { stashed: bool, old_tree: String },
    /// `HEAD` is on no branch; the remote's default is being read.
    ReadingDefault { stashed: bool, old_tree: String },
    /// The branch is being fetched and analysed.
    Fetching { stashed: bool, old_tree: String, branch: String },
    /// The fast-forward is being applied.
    Applying { stashed: bool, old_tree: String, branch: String },
    /// The fast-forward is applied; the deleted paths are being read off.
    Diffing { stashed: bool, old_tree: String, new_tree: String },
    /// The pull has succeeded or failed as `verdict` says; the stash is being
    /// reapplied.
    Restoring { verdict: Result<PullSuccess, GitError> },
    /// The pull has succeeded and the stash did not apply; it is being dropped.
    Dropping { success: PullSuccess },
    /// The paths that the fast-forward deleted are being removed.
    Removing { paths: Vec<String> },
    /// The pull is over.
    Finished { result: Result<PullOutcome, GitError> },
}

/// Mathematical value of a [`PullState`].
pub enum PullStateView {
    Inspecting,
    Stashing,
    Snapshotting { stashed: bool },
    ReadingHead { stashed: bool, old_tree: Seq<char> },
    ReadingDefault { stashed: bool, old_tree: Seq<char> },
    Fetching { stashed: bool, old_tree: Seq<char>, branch: Seq<char> },
    Applying { stashed: bool, old_tree: Seq<char>, branch: Seq<char> },
    Diffing { stashed: bool, old_tree: Seq<char>, new_tree: Seq<char> },
    Restoring { verdict: Result<PullSuccessView, GitErrorView> },
    Dropping { success: PullSuccessView },
    Removing { paths: Seq<Seq<char>> },
    Finished { result: Result<PullOutcome, GitErrorView> },
}

impl DeepView for PullState {
    type V = PullStateView;

    open spec fn deep_view(&self) -> PullStateView {
        match *self {
            PullState::Inspecting => PullStateView::Inspecting,
            PullState::Stashing => PullStateView::Stashing,
            PullState::Snapshotting { stashed } => PullStateView::Snapshotting { stashed },
            PullState::ReadingHead { stashed, old_tree } => PullStateView::ReadingHead {
                stashed,
                old_tree: old_tree@,
            },
            PullState::ReadingDefault { stashed, old_tree } => PullStateView::ReadingDefault {
                stashed,
                old_tree: old_tree@,
            },
            PullState::Fetching { stashed, old_tree, branch } => PullStateView::Fetching {
                stashed,
                old_tree: old_tree@,
                branch: branch@,
            },
            PullState::Applying { stashed, old_tree, branch } => PullStateView::Applying {
                stashed,
                old_tree: old_tree@,
                branch: branch@,
            },
            PullState::Diffing { stashed, old_tree, new_tree } => PullStateView::Diffing {
                stashed,
                old_tree: old_tree@,
                new_tree: new_tree@,
            },
            PullState::Restoring { verdict } => PullStateView::Restoring {
                verdict: result_view(verdict),
            },
            PullState::Dropping { success } => PullStateView::Dropping { success: success@ },
            PullState::Removing { paths } => PullStateView::Removing { paths: paths.deep_view() },
            PullState::Finished { result } => PullStateView::Finished {
                result: result_view(result),
            },
        }
    }
}

impl View for PullState {
    type V = PullStateView;

    open spec fn view(&self) -> PullStateView {
        self.deep_view()
    }
}

/// The remote that a pull fetches from.
pub open spec fn pull_remote() -> Seq<char> {
    "origin"@
}

/// Name, e-mail address and message under which a pull saves its stash.
pub open spec fn stash_label() -> (Seq<char>, Seq<char>, Seq<char>) {
    ("App"@, "app@example.com"@, "Stashed by app during pull"@)
}

/// The state in which a successful or failed pull is wound up when no stash
/// stands in the way: a failure and an up-to-date pull are over, a
/// fast-forward has its deleted paths removed first.
pub open spec fn concluded(verdict: Result<PullSuccessView, GitErrorView>) -> PullStateView {
    match verdict {
        Err(e) => PullStateView::Finished { result: Err(e) },
        Ok(PullSuccessView::UpToDate) => PullStateView::Finished {
            result: Ok(PullOutcome::UpToDate),
        },
        Ok(PullSuccessView::FastForwarded { deleted }) => PullStateView::Removing {
            paths: deleted,
        },
    }
}

/// The state that follows once the pull has succeeded or failed: first the
/// stash, if there is one, then the rest.
pub open spec fn settled(
    stashed: bool,
    verdict: Result<PullSuccessView, GitErrorView>,
) -> PullStateView {
    if stashed {
        PullStateView::Restoring { verdict }
    } else {
        concluded(verdict)
    }
}

/// What the fetch and its analysis make of the pull: the verdict, or `None`
/// when a fast-forward is still to be applied.
pub open spec fn fetch_verdict(fetched: Result<MergeAnalysis, GitErrorView>) -> Option<
    Result<PullSuccessView, GitErrorView>,
> {
    match fetched {
        Err(e) => Some(Err(e)),
        Ok(analysis) => match classification(analysis) {
            MergeClassification::UpToDate => Some(Ok(PullSuccessView::UpToDate)),
            MergeClassification::FastForward => None,
            MergeClassification::Diverged => Some(Err(GitErrorView::Diverged)),
        },
    }
}

impl PullActionView {
    /// The place of an action in the course of a pull.
    pub open spec fn order(self) -> nat {
        match self {
            PullActionView::ListStatus => 0,
            PullActionView::SaveStash { .. } => 1,
            PullActionView::RecordHeadTree => 2,
            PullActionView::ReadHead => 3,
            PullActionView::ReadRemoteDefault { .. } => 4,
            PullActionView::FetchAndAnalyze { .. } => 5,
            PullActionView::ApplyFastForward { .. } => 6,
            PullActionView::DiffTrees { .. } => 7,
            PullActionView::RestoreStash => 8,
            PullActionView::DropStash => 9,
            PullActionView::RemovePaths { .. } => 10,
            PullActionView::Finish { .. } => 11,
        }
    }
}

impl PullStateView {
    /// The stage of the pull that this state belongs to.
    pub open spec fn stage(self) -> PullStage {
        match self {
            PullStateView::Inspecting => PullStage::Clean,
            PullStateView::Stashing => PullStage::Clean,
            PullStateView::Snapshotting { stashed } => if stashed {
                PullStage::Stashed
            } else {
                PullStage::Clean
            },
            PullStateView::ReadingHead { .. } => PullStage::Fetching,
            PullStateView::ReadingDefault { .. } => PullStage::Fetching,
            PullStateView::Fetching { .. } => PullStage::Fetching,
            PullStateView::Applying { .. } => PullStage::Fetching,
            PullStateView::Diffing { .. } => PullStage::Succeeded,
            PullStateView::Restoring { verdict } => if verdict is Ok {
                PullStage::Succeeded
            } else {
                PullStage::Failed
            },
            PullStateView::Dropping { .. } => PullStage::Succeeded,
            PullStateView::Removing { .. } => PullStage::Succeeded,
            PullStateView::Finished { result } => if result is Ok {
                PullStage::Succeeded
            } else {
                PullStage::Failed
            },
        }
    }

    /// The action that is pending in this state.
    pub open spec fn pending(self) -> PullActionView {
        match self {
            PullStateView::Inspecting => PullActionView::ListStatus,
            PullStateView::Stashing => PullActionView::SaveStash {
                author: stash_label().0,
                email: stash_label().1,
                message: stash_label().2,
            },
            PullStateView::Snapshotting { .. } => PullActionView::RecordHeadTree,
            PullStateView::ReadingHead { .. } => PullActionView::ReadHead,
            PullStateView::ReadingDefault { .. } => PullActionView::ReadRemoteDefault {
                remote: pull_remote(),
            },
            PullStateView::Fetching { branch, .. } => PullActionView::FetchAndAnalyze {
                remote: pull_remote(),
                branch,
            },
            PullStateView::Applying { branch, .. } => PullActionView::ApplyFastForward {
                reference: reference_of_branch(branch),
            },
            PullStateView::Diffing { old_tree, new_tree, .. } => PullActionView::DiffTrees {
                old_tree,
                new_tree,
            },
            PullStateView::Restoring { .. } => PullActionView::RestoreStash,
            PullStateView::Dropping { .. } => PullActionView::DropStash,
            PullStateView::Removing { paths } => PullActionView::RemovePaths { paths },
            PullStateView::Finished { result } => PullActionView::Finish { result },
        }
    }

    /// The event reports on the action that is pending in this state.
    pub open spec fn awaits(self, event: PullEventView) -> bool {
        match self {
            PullStateView::Inspecting => event is StatusListed,
            PullStateView::Stashing => event is StashSaved,
            PullStateView::Snapshotting { .. } => event is HeadTreeRecorded,
            PullStateView::ReadingHead { .. } => event is HeadRead,
            PullStateView::ReadingDefault { .. } => event is RemoteDefaultRead,
            PullStateView::Fetching { .. } => event is Fetched,
            PullStateView::Applying { .. } => event is FastForwardApplied,
            PullStateView::Diffing { .. } => event is TreesDiffed,
            PullStateView::Restoring { .. } => event is StashRestored,
            PullStateView::Dropping { .. } => event is StashDropped,
            PullStateView::Removing { .. } => event is PathsRemoved,
            PullStateView::Finished { .. } => false,
        }
    }

    /// The state after `event`. An event that does not report on the pending
    /// action changes nothing.
    pub open spec fn advance(self, event: PullEventView) -> PullStateView {
        match (self, event) {
            (PullStateView::Inspecting, PullEventView::StatusListed(Err(e))) => {
                PullStateView::Finished { result: Err(e) }
            },
            (PullStateView::Inspecting, PullEventView::StatusListed(Ok(statuses))) => {
                if any_local_change(statuses) {
                    PullStateView::Stashing
                } else {
                    PullStateView::Snapshotting { stashed: false }
                }
            },
            (PullStateView::Stashing, PullEventView::StashSaved(Err(e))) => {
                PullStateView::Finished { result: Err(e) }
            },
            (PullStateView::Stashing, PullEventView::StashSaved(Ok(_))) => {
                PullStateView::Snapshotting { stashed: true }
            },
            (
                PullStateView::Snapshotting { stashed },
                PullEventView::HeadTreeRecorded(Err(e)),
            ) => settled(stashed, Err(e)),
            (
                PullStateView::Snapshotting { stashed },
                PullEventView::HeadTreeRecorded(Ok(old_tree)),
            ) => PullStateView::ReadingHead { stashed, old_tree },
            (PullStateView::ReadingHead { stashed, old_tree }, PullEventView::HeadRead(name)) => {
                match branch_of_head(name) {
                    Some(branch) => PullStateView::Fetching { stashed, old_tree, branch },
                    None => PullStateView::ReadingDefault { stashed, old_tree },
                }
            },
            (
                PullStateView::ReadingDefault { stashed, old_tree },
                PullEventView::RemoteDefaultRead(advertised),
            ) => PullStateView::Fetching {
                stashed,
                old_tree,
                branch: resolved_branch(None, advertised),
            },
            (
                PullStateView::Fetching { stashed, old_tree, branch },
                PullEventView::Fetched(fetched),
            ) => {
                match fetch_verdict(fetched) {
                    Some(verdict) => settled(stashed, verdict),
                    None => PullStateView::Applying { stashed, old_tree, branch },
                }
            },
            (
                PullStateView::Applying { stashed, .. },
                PullEventView::FastForwardApplied(Err(e)),
            ) => settled(stashed, Err(e)),
            (
                PullStateView::Applying { stashed, old_tree, .. },
                PullEventView::FastForwardApplied(Ok(new_tree)),
            ) => PullStateView::Diffing { stashed, old_tree, new_tree },
            (PullStateView::Diffing { stashed, .. }, PullEventView::TreesDiffed(Err(e))) => {
                settled(stashed, Err(e))
            },
            (PullStateView::Diffing { stashed, .. }, PullEventView::TreesDiffed(Ok(changes))) => {
                settled(stashed, Ok(PullSuccessView::FastForwarded { deleted: deleted_paths(changes) }))
            },
            (PullStateView::Restoring { verdict }, PullEventView::StashRestored { applied }) => {
                match verdict {
                    Ok(success) if !applied => PullStateView::Dropping { success },
                    _ => concluded(verdict),
                }
            },
            (PullStateView::Dropping { success }, PullEventView::StashDropped) => concluded(
                Ok(success),
            ),
            (PullStateView::Removing { .. }, PullEventView::PathsRemoved) => {
                PullStateView::Finished { result: Ok(PullOutcome::FastForwarded) }
            },
            _ => self,
        }
    }
}

/// Winds up a pull that no stash stands in the way of.
fn conclude(verdict: Result<PullSuccess, GitError>) -> (next: PullState)
    ensures
        next@ == concluded(result_view(verdict)),
{
    match verdict {
        Err(e) => PullState::Finished { result: Err(e) },
        Ok(PullSuccess::UpToDate) => PullState::Finished { result: Ok(PullOutcome::UpToDate) },
        Ok(PullSuccess::FastForwarded { deleted }) => PullState::Removing { paths: deleted },
    }
}

/// Moves on once the pull has succeeded or failed.
fn settle(stashed: bool, verdict: Result<PullSuccess, GitError>) -> (next: PullState)
    ensures
        next@ == settled(stashed, result_view(verdict)),
{
    if stashed {
        PullState::Restoring { verdict }
    } else {
        conclude(verdict)
    }
}

impl PullState {
    /// The state in which every pull begins.
    pub fn start() -> (state: PullState)
        ensures
            state@ == PullStateView::Inspecting,
    {
        PullState::Inspecting
    }

    /// The stage of the pull that this state belongs to.
    pub fn stage(&self) -> (stage: PullStage)
        ensures
            stage == self@.stage(),
    {
        match self {
            PullState::Inspecting => PullStage::Clean,
            PullState::Stashing => PullStage::Clean,
            PullState::Snapshotting { stashed } => if *stashed {
                PullStage::Stashed
            } else {
                PullStage::Clean
            },
            PullState::ReadingHead { .. } => PullStage::Fetching,
            PullState::ReadingDefault { .. } => PullStage::Fetching,
            PullState::Fetching { .. } => PullStage::Fetching,
            PullState::Applying { .. } => PullStage::Fetching,
            PullState::Diffing { .. } => PullStage::Succeeded,
            PullState::Restoring { verdict } => match verdict {
                Ok(_) => PullStage::Succeeded,
                Err(_) => PullStage::Failed,
            },
            PullState::Dropping { .. } => PullStage::Succeeded,
            PullState::Removing { .. } => PullStage::Succeeded,
            PullState::Finished { result } => match result {
                Ok(_) => PullStage::Succeeded,
                Err(_) => PullStage::Failed,
            },
        }
    }

    /// The action that the driver is to perform now.
    pub fn pending(&self) -> (action: PullAction)
        ensures
            action@ == self@.pending(),
    {
        match self {
            PullState::Inspecting => PullAction::ListStatus,
            PullState::Stashing => PullAction::SaveStash {
                author: "App".to_owned(),
                email: "app@example.com".to_owned(),
                message: "Stashed by app during pull".to_owned(),
            },
            PullState::Snapshotting { .. } => PullAction::RecordHeadTree,
            PullState::ReadingHead { .. } => PullAction::ReadHead,
            PullState::ReadingDefault { .. } => PullAction::ReadRemoteDefault {
                remote: "origin".to_owned(),
            },
            PullState::Fetching { branch, .. } => PullAction::FetchAndAnalyze {
                remote: "origin".to_owned(),
                branch: branch.clone(),
            },
            PullState::Applying { branch, .. } => PullAction::ApplyFastForward {
                reference: branch_reference(branch.as_str()),
            },
            PullState::Diffing { old_tree, new_tree, .. } => PullAction::DiffTrees {
                old_tree: old_tree.clone(),
                new_tree: new_tree.clone(),
            },
            PullState::Restoring { .. } => PullAction::RestoreStash,
            PullState::Dropping { .. } => PullAction::DropStash,
            PullState::Removing { paths } => PullAction::RemovePaths { paths: copy_all(paths) },
            PullState::Finished { result } => PullAction::Finish {
                result: match result {
                    Ok(outcome) => Ok(*outcome),
                    Err(e) => Err(e.clone()),
                },
            },
        }
    }

    /// Takes in what the driver reports and moves to the next state.
    pub fn advance(self, event: PullEvent) -> (next: PullState)
        ensures
            next@ == self@.advance(event@),
    {
        match self {
            PullState::Inspecting => match event {
                PullEvent::StatusListed(Err(e)) => PullState::Finished { result: Err(e) },
                PullEvent::StatusListed(Ok(statuses)) => {
                    if has_local_changes(&statuses) {
                        PullState::Stashing
                    } else {
                        PullState::Snapshotting { stashed: false }
                    }
                },
                _ => PullState::Inspecting,
            },
            PullState::Stashing => match event {
                PullEvent::StashSaved(Err(e)) => PullState::Finished { result: Err(e) },
                PullEvent::StashSaved(Ok(_)) => PullState::Snapshotting { stashed: true },
                _ => PullState::Stashing,
            },
            PullState::Snapshotting { stashed } => match event {
                PullEvent::HeadTreeRecorded(Err(e)) => settle(stashed, Err(e)),
                PullEvent::HeadTreeRecorded(Ok(old_tree)) => PullState::ReadingHead {
                    stashed,
                    old_tree,
                },
                _ => PullState::Snapshotting { stashed },
            },
            PullState::ReadingHead { stashed, old_tree } => match event {
                PullEvent::HeadRead(name) => {
                    let on_branch = match &name {
                        Some(reference) => head_branch(Some(reference.as_str())),
                        None => head_branch(None),
                    };
                    match on_branch {
                        Some(branch) => PullState::Fetching { stashed, old_tree, branch },
                        None => PullState::ReadingDefault { stashed, old_tree },
                    }
                },
                _ => PullState::ReadingHead { stashed, old_tree },
            },
            PullState::ReadingDefault { stashed, old_tree } => match event {
                PullEvent::RemoteDefaultRead(advertised) => PullState::Fetching {
                    stashed,
                    old_tree,
                    branch: default_branch(advertised),
                },
                _ => PullState::ReadingDefault { stashed, old_tree },
            },
            PullState::Fetching { stashed, old_tree, branch } => match event {
                PullEvent::Fetched(Err(e)) => settle(stashed, Err(e)),
                PullEvent::Fetched(Ok(analysis)) => match classify(analysis) {
                    MergeClassification::UpToDate => settle(stashed, Ok(PullSuccess::UpToDate)),
                    MergeClassification::FastForward => PullState::Applying {
                        stashed,
                        old_tree,
                        branch,
                    },
                    MergeClassification::Diverged => settle(stashed, Err(GitError::Diverged)),
                },
                _ => PullState::Fetching { stashed, old_tree, branch },
            },
            PullState::Applying { stashed, old_tree, branch } => match event {
                PullEvent::FastForwardApplied(Err(e)) => settle(stashed, Err(e)),
                PullEvent::FastForwardApplied(Ok(new_tree)) => PullState::Diffing {
                    stashed,
                    old_tree,
                    new_tree,
                },
                _ => PullState::Applying { stashed, old_tree, branch },
            },
            PullState::Diffing { stashed, old_tree, new_tree } => match event {
                PullEvent::TreesDiffed(Err(e)) => settle(stashed, Err(e)),
                PullEvent::TreesDiffed(Ok(changes)) => settle(
                    stashed,
                    Ok(PullSuccess::FastForwarded { deleted: collect_deleted(&changes) }),
                ),
                _ => PullState::Diffing { stashed, old_tree, new_tree },
            },
            PullState::Restoring { verdict } => match event {
                PullEvent::StashRestored { applied } => match verdict {
                    Ok(success) => {
                        if applied {
                            conclude(Ok(success))
                        } else {
                            PullState::Dropping { success }
                        }
                    },
                    Err(e) => conclude(Err(e)),
                },
                _ => PullState::Restoring { verdict },
            },
            PullState::Dropping { success } => match event {
                PullEvent::StashDropped => conclude(Ok(success)),
                _ => PullState::Dropping { success },
            },
            PullState::Removing { paths } => match event {
                PullEvent::PathsRemoved => PullState::Finished {
                    result: Ok(PullOutcome::FastForwarded),
                },
                _ => PullState::Removing { paths },
            },
            PullState::Finished { result } => PullState::Finished { result },
        }
    }
}

/// One turn of the machine: takes in what the driver reports on the pending
/// action and answers with the next state and the action pending in it.
pub fn pull_step(state: PullState, event: PullEvent) -> (turn: (PullState, PullAction))
    ensures
        turn.0@ == state@.advance(event@),
        turn.1@ == turn.0@.pending(),
{
    let next = state.advance(event);
    let action = next.pending();
    (next, action)
}

} // verus!
