//! The decisions of a repository synchronization engine.
//!
//! Given a working copy of a version-controlled tree and a remote peer, the
//! engine resolves authentication, validates the peer's identity, finds out
//! how local and remote history relate, and reconciles them while protecting
//! uncommitted local edits. This library holds what the engine decides, and
//! proves it; reading and writing the repository is left to its caller.
//!
//! - [`credentials`] chooses the credential that a remote is offered.
//! - [`certificate`] holds a peer's X.509 certificate against its host name.
//! - [`branch`] derives the branch that an operation works on.
//! - [`status`] detects uncommitted local changes.
//! - [`merge`] classifies how local history relates to what was fetched.
//! - [`deletions`] reads off which paths a fast-forward deleted.
//! - [`pull`] is the stash-protected pull, a state machine; [`pull_laws`]
//!   states what holds of every pull.
//! - [`conflict`] is the resolution of a conflicted merge, by preferring the
//!   remote side or by aborting.
//! - [`trust`] bundles additional trust anchors for the transport.
//! - [`error`] is the error taxonomy.

use vstd::prelude::*;

pub mod branch;
pub mod certificate;
pub mod conflict;
pub mod credentials;
pub mod deletions;
pub mod error;
pub mod merge;
pub mod pull;
pub mod pull_laws;
pub mod status;
pub mod text;
pub mod trust;

verus! {

/// Sum of two signed integers.
pub fn add(left: i32, right: i32) -> (sum: i32)
    requires
        i32::MIN <= left + right <= i32::MAX,
    ensures
        sum == left + right,
{
    left + right
}

} // verus!
