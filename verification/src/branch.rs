//! Branch-name resolution: the branch an operation works on is derived anew,
//! each time, from where `HEAD` points and what the remote advertises.

use vstd::prelude::*;
use vstd::string::StringExecFns;
use crate::text::{stripped, strip_prefix};

verus! {

/// The namespace under which branch references live.
pub open spec fn branch_namespace() -> Seq<char> {
    "refs/heads/"@
}

/// The branch name used when neither `HEAD` nor the remote gives one.
pub open spec fn fallback_branch() -> Seq<char> {
    "main"@
}

/// The branch that `HEAD` is on: the reference's name without the branch
/// namespace. `None` when `HEAD` has no readable name or points elsewhere.
pub open spec fn branch_of_head(head_name: Option<Seq<char>>) -> Option<Seq<char>> {
    match head_name {
        Some(name) => stripped(name, branch_namespace()),
        None => None,
    }
}

/// The branch an operation works on: the one `HEAD` is on; failing that, the
/// default branch the remote advertises; failing that, the fallback.
pub open spec fn resolved_branch(
    head_name: Option<Seq<char>>,
    remote_default: Option<Seq<char>>,
) -> Seq<char> {
    match branch_of_head(head_name) {
        Some(branch) => branch,
        None => match remote_default {
            Some(advertised) => advertised,
            None => fallback_branch(),
        },
    }
}

/// The full reference name of a branch.
pub open spec fn reference_of_branch(branch: Seq<char>) -> Seq<char> {
    branch_namespace() + branch
}

/// The branch `HEAD` is on, given the name of the reference it resolves to.
pub fn head_branch(head_name: Option<&str>) -> (branch: Option<String>)
    ensures
        branch.deep_view() == branch_of_head(head_name.deep_view()),
{
    match head_name {
        Some(name) => strip_prefix(name, "refs/heads/"),
        None => None,
    }
}

/// The branch to use when `HEAD` is on none: the remote's advertised default,
/// or the fallback.
pub fn default_branch(remote_default: Option<String>) -> (branch: String)
    ensures
        branch@ == resolved_branch(None, remote_default.deep_view()),
{
    match remote_default {
        Some(advertised) => advertised,
        None => "main".to_owned(),
    }
}

/// Resolves the branch an operation works on, which is also the branch shown
/// as current. Never fails.
pub fn resolve_branch_name(head_name: Option<&str>, remote_default: Option<String>) -> (branch:
    String)
    ensures
        branch@ == resolved_branch(head_name.deep_view(), remote_default.deep_view()),
{
    match head_branch(head_name) {
        Some(branch) => branch,
        None => default_branch(remote_default),
    }
}

/// The full reference name of `branch`.
pub fn branch_reference(branch: &str) -> (reference: String)
    ensures
        reference@ == reference_of_branch(branch@),
{
    String::from_str("refs/heads/").concat(branch)
}

/// Taking a branch's reference name and reading the branch back from it
/// gives the same branch.
pub proof fn lemma_reference_names_its_branch(branch: Seq<char>)
    ensures
        branch_of_head(Some(reference_of_branch(branch))) == Some(branch),
{
    let reference = reference_of_branch(branch);
    let namespace = branch_namespace();
    assert(reference.subrange(0, namespace.len() as int) =~= namespace);
    assert(reference.skip(namespace.len() as int) =~= branch);
}

} // verus!
