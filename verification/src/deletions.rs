//! Deletion set: the paths that a fast-forward removed upstream, read from the
//! difference between the tree before and the tree after.

use vstd::prelude::*;

verus! {

/// How a path changed from one tree to the next.
#[derive(Debug, Clone, Copy, PartialEq, Eq)]
pub enum ChangeKind {
    Added,
    Deleted,
    Modified,
    /// Any other kind of change.
    Other,
}

/// One entry of a tree-to-tree difference.
#[derive(Debug, PartialEq, Eq)]
pub struct TreeChange {
    pub kind: ChangeKind,
    /// The path on the old side, where it has one that reads as text.
    pub old_path: Option<String>,
}

/// Mathematical value of a [`TreeChange`].
pub struct TreeChangeView {
    pub kind: ChangeKind,
    pub old_path: Option<Seq<char>>,
}

impl DeepView for TreeChange {
    type V = TreeChangeView;

    open spec fn deep_view(&self) -> TreeChangeView {
        TreeChangeView { kind: self.kind, old_path: self.old_path.deep_view() }
    }
}

impl View for TreeChange {
    type V = TreeChangeView;

    open spec fn view(&self) -> TreeChangeView {
        self.deep_view()
    }
}

impl TreeChangeView {
    /// The path this change removes: the old path of a deletion.
    pub open spec fn removal(self) -> Option<Seq<char>> {
        if self.kind is Deleted {
            self.old_path
        } else {
            None
        }
    }
}

/// The paths that a difference deletes, in the order of the difference.
pub open spec fn deleted_paths(changes: Seq<TreeChangeView>) -> Seq<Seq<char>> {
    changes.filter_map(|change: TreeChangeView| change.removal())
}

impl TreeChange {
    /// The path this change removes, if it is a deletion.
    pub fn removal(&self) -> (path: Option<String>)
        ensures
            path.deep_view() == self@.removal(),
    {
        match self.kind {
            ChangeKind::Deleted => match &self.old_path {
                Some(path) => Some(path.clone()),
                None => None,
            },
            _ => None,
        }
    }
}

/// Collects the paths that a difference deletes.
pub fn collect_deleted(changes: &Vec<TreeChange>) -> (paths: Vec<String>)
    ensures
        paths.deep_view() == deleted_paths(changes.deep_view()),
{
    let ghost all = changes.deep_view();
    let ghost removal = |change: TreeChangeView| change.removal();
    let mut paths: Vec<String> = Vec::new();
    let mut i: usize = 0;
    assert(all.take(0).filter_map(removal) =~= Seq::<Seq<char>>::empty());
    assert(paths.deep_view() =~= Seq::<Seq<char>>::empty());
    while i < changes.len()
        invariant
            i <= changes.len(),
            all == changes.deep_view(),
            removal == |change: TreeChangeView| change.removal(),
            paths.deep_view() == all.take(i as int).filter_map(removal),
        decreases changes.len() - i,
    {
        let ghost before = paths.deep_view();
        proof {
            all.lemma_filter_map_take_succ(removal, i as int);
        }
        match changes[i].removal() {
            Some(path) => {
                paths.push(path);
                assert(paths.deep_view() =~= before + seq![path@]);
            },
            None => {
                assert(paths.deep_view() =~= before);
            },
        }
        i += 1;
    }
    assert(all.take(changes.len() as int) =~= all);
    paths
}

} // verus!
