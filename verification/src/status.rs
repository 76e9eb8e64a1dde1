//! Local change detection: does the working copy hold edits that a pull must
//! protect before it touches anything?

use vstd::prelude::*;

verus! {

/// One line of a status listing: a path and how the store describes its state.
#[derive(Debug, PartialEq, Eq)]
pub struct StatusEntry {
    pub path: String,
    pub status: String,
}

/// The path shown for an entry whose path cannot be read as text.
pub open spec fn unknown_path() -> Seq<char> {
    "unknown"@
}

impl StatusEntry {
    /// The entry for a path, where it is readable, and a state description.
    pub fn new(path: Option<String>, status: String) -> (entry: StatusEntry)
        ensures
            entry.path@ == match path {
                Some(p) => p@,
                None => unknown_path(),
            },
            entry.status == status,
    {
        let path = match path {
            Some(p) => p,
            None => "unknown".to_owned(),
        };
        StatusEntry { path, status }
    }
}

/// The state of one path, as far as change detection reads it: how the index
/// differs from `HEAD`, and how the working tree differs from the index.
#[derive(Debug, Clone, Copy, PartialEq, Eq)]
pub struct FileStatus {
    pub index_new: bool,
    pub index_modified: bool,
    pub index_deleted: bool,
    pub wt_new: bool,
    pub wt_modified: bool,
    pub wt_deleted: bool,
}

impl FileStatus {
    /// The path is new, modified or deleted, in the index or the working tree.
    pub open spec fn is_change(self) -> bool {
        self.wt_modified || self.wt_deleted || self.wt_new || self.index_modified
            || self.index_deleted || self.index_new
    }

    /// Whether this path counts as a local change.
    pub fn is_local_change(&self) -> (changed: bool)
        ensures
            changed == self.is_change(),
    {
        self.wt_modified || self.wt_deleted || self.wt_new || self.index_modified
            || self.index_deleted || self.index_new
    }
}

/// Some path of the listing is a local change.
pub open spec fn any_local_change(statuses: Seq<FileStatus>) -> bool {
    exists|i: int| 0 <= i < statuses.len() && (#[trigger] statuses[i]).is_change()
}

/// Whether a status listing shows uncommitted local changes.
pub fn has_local_changes(statuses: &Vec<FileStatus>) -> (changed: bool)
    ensures
        changed == any_local_change(statuses@),
{
    let mut i: usize = 0;
    while i < statuses.len()
        invariant
            i <= statuses.len(),
            forall|j: int| 0 <= j < i ==> !(#[trigger] statuses@[j]).is_change(),
        decreases statuses.len() - i,
    {
        if statuses[i].is_local_change() {
            return true;
        }
        i += 1;
    }
    false
}

} // verus!
