//! Merge classification: how local history relates to what was fetched.

use vstd::prelude::*;

verus! {

/// What the store's merge analysis reports of `HEAD` and the fetched commit.
#[derive(Debug, Clone, Copy, PartialEq, Eq)]
pub struct MergeAnalysis {
    /// The fetched commit is `HEAD` or one of its ancestors.
    pub up_to_date: bool,
    /// `HEAD` is an ancestor of the fetched commit.
    pub fast_forward: bool,
}

/// The relation of local to fetched history. Exactly one holds.
#[derive(Debug, Clone, Copy, PartialEq, Eq)]
pub enum MergeClassification {
    /// Nothing new was fetched.
    UpToDate,
    /// The local branch can be moved forward to the fetched commit.
    FastForward,
    /// Neither history contains the other.
    Diverged,
}

/// The classification that an analysis amounts to.
pub open spec fn classification(analysis: MergeAnalysis) -> MergeClassification {
    if analysis.up_to_date {
        MergeClassification::UpToDate
    } else if analysis.fast_forward {
        MergeClassification::FastForward
    } else {
        MergeClassification::Diverged
    }
}

/// Classifies the relation of local to fetched history.
pub fn classify(analysis: MergeAnalysis) -> (class: MergeClassification)
    ensures
        class == classification(analysis),
{
    if analysis.up_to_date {
        MergeClassification::UpToDate
    } else if analysis.fast_forward {
        MergeClassification::FastForward
    } else {
        MergeClassification::Diverged
    }
}

} // verus!
