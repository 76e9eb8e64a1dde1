//! Credential resolution: which credential a remote is offered, chosen from
//! its URL and the secrets the caller supplied for this one call.
//!
//! Resolution has no side effect, so a transport may ask as often as it likes.

use vstd::prelude::*;
use crate::error::{AuthError, AuthErrorView};
use crate::text::starts_with;

verus! {

/// `git2::Cred`: a credential as the store hands it to a transport. Nothing
/// inside it is visible here; it is only passed on.
#[verifier::external_type_specification]
#[verifier::external_body]
pub struct ExCred(git2::Cred);

/// `git2::Error`: the store's report of a failure. Nothing inside it is
/// visible here; its text is read with `to_string`.
#[verifier::external_type_specification]
#[verifier::external_body]
pub struct ExStoreError(git2::Error);

/// `git2::Cred::userpass_plaintext` builds a plain-text user name and password
/// credential, or reports why it could not. It first turns both texts into C
/// strings, which fails on a NUL character; that much is claimed, no more.
pub assume_specification[ git2::Cred::userpass_plaintext ](username: &str, password: &str) -> (made: Result<git2::Cred, git2::Error>)
    ensures
        username@.contains('\0') || password@.contains('\0') ==> made is Err,
;

/// `git2::Cred::ssh_key_from_agent` builds a credential that queries an ssh
/// agent for the given user. It first turns the user name into a C string,
/// which fails on a NUL character; that much is claimed, no more.
pub assume_specification[ git2::Cred::ssh_key_from_agent ](username: &str) -> (made: Result<git2::Cred, git2::Error>)
    ensures
        username@.contains('\0') ==> made is Err,
;

/// `git2::Cred::ssh_key` builds a key-file credential from a user name, an
/// optional public key path, a private key path and an optional passphrase.
/// It first turns each into a C string, which fails on a NUL character; that
/// much is claimed of the user name and the private key path, no more.
#[verifier::external_body]
fn ssh_key(username: &str, publickey: Option<&str>, privatekey: &str, passphrase: Option<&str>) -> (made:
    Result<git2::Cred, git2::Error>)
    ensures
        username@.contains('\0') || privatekey@.contains('\0') ==> made is Err,
{
    let private = std::path::Path::new(privatekey);
    git2::Cred::ssh_key(username, publickey.map(std::path::Path::new), private, passphrase)
}

/// The credential to ask the store for.
#[derive(Debug, PartialEq, Eq)]
pub enum CredentialPlan {
    /// Plain-text user name and password.
    UserPass { username: String, password: String },
    /// A private key file, without passphrase.
    SshKey { username: String, key_path: String },
    /// Whatever key the user's agent offers.
    SshAgent { username: String },
}

/// Mathematical value of a [`CredentialPlan`].
pub enum CredentialPlanView {
    UserPass { username: Seq<char>, password: Seq<char> },
    SshKey { username: Seq<char>, key_path: Seq<char> },
    SshAgent { username: Seq<char> },
}

impl DeepView for CredentialPlan {
    type V = CredentialPlanView;

    open spec fn deep_view(&self) -> CredentialPlanView {
        match *self {
            CredentialPlan::UserPass { username, password } => CredentialPlanView::UserPass {
                username: username@,
                password: password@,
            },
            CredentialPlan::SshKey { username, key_path } => CredentialPlanView::SshKey {
                username: username@,
                key_path: key_path@,
            },
            CredentialPlan::SshAgent { username } => CredentialPlanView::SshAgent {
                username: username@,
            },
        }
    }
}

impl View for CredentialPlan {
    type V = CredentialPlanView;

    open spec fn view(&self) -> CredentialPlanView {
        self.deep_view()
    }
}

/// A URL selects password authentication when it begins with the scheme
/// `http://` or `https://`. Every other URL, an scp-style address whose host
/// happens to begin with `http` among them, selects key authentication.
pub open spec fn is_http_url(url: Seq<char>) -> bool {
    "http://"@.is_prefix_of(url) || "https://"@.is_prefix_of(url)
}

/// The user every key-based credential authenticates as.
pub open spec fn ssh_user() -> Seq<char> {
    "git"@
}

/// The credential that a URL and the supplied secrets call for.
pub open spec fn credential_plan(
    url: Seq<char>,
    username: Option<Seq<char>>,
    password: Option<Seq<char>>,
    ssh_key_path: Option<Seq<char>>,
) -> Result<CredentialPlanView, AuthErrorView> {
    if is_http_url(url) {
        if username is Some && password is Some {
            Ok(
                CredentialPlanView::UserPass {
                    username: username->Some_0,
                    password: password->Some_0,
                },
            )
        } else {
            Err(AuthErrorView::MissingCredentials)
        }
    } else {
        match ssh_key_path {
            Some(key_path) => Ok(CredentialPlanView::SshKey { username: ssh_user(), key_path }),
            None => Ok(CredentialPlanView::SshAgent { username: ssh_user() }),
        }
    }
}

impl CredentialPlanView {
    /// The error reported when the store cannot build this credential and
    /// explains itself with `text`.
    pub open spec fn failure(self, text: Seq<char>) -> AuthErrorView {
        match self {
            CredentialPlanView::UserPass { .. } => AuthErrorView::InvalidCredentials(text),
            CredentialPlanView::SshKey { .. } => AuthErrorView::KeyError(text),
            CredentialPlanView::SshAgent { .. } => AuthErrorView::AgentError(text),
        }
    }
}

/// Whether `url` selects password authentication.
pub fn url_is_http(url: &str) -> (http: bool)
    ensures
        http == is_http_url(url@),
{
    starts_with(url, "http://") || starts_with(url, "https://")
}

/// Chooses the credential for `url` without building it.
pub fn plan_credentials(
    url: &str,
    username: &Option<String>,
    password: &Option<String>,
    ssh_key_path: &Option<String>,
) -> (plan: Result<CredentialPlan, AuthError>)
    ensures
        crate::error::result_view(plan) == credential_plan(
            url@,
            username.deep_view(),
            password.deep_view(),
            ssh_key_path.deep_view(),
        ),
{
    if url_is_http(url) {
        match (username, password) {
            (Some(user), Some(pass)) => Ok(
                CredentialPlan::UserPass { username: user.clone(), password: pass.clone() },
            ),
            _ => Err(AuthError::MissingCredentials),
        }
    } else {
        match ssh_key_path {
            Some(key_path) => Ok(
                CredentialPlan::SshKey {
                    username: "git".to_owned(),
                    key_path: key_path.clone(),
                },
            ),
            None => Ok(CredentialPlan::SshAgent { username: "git".to_owned() }),
        }
    }
}

impl CredentialPlan {
    /// The error for a store that could not build this credential.
    pub fn failure(&self, text: String) -> (error: AuthError)
        ensures
            error@ == self@.failure(text@),
    {
        match self {
            CredentialPlan::UserPass { .. } => AuthError::InvalidCredentials(text),
            CredentialPlan::SshKey { .. } => AuthError::KeyError(text),
            CredentialPlan::SshAgent { .. } => AuthError::AgentError(text),
        }
    }

    /// Asks the credential store for the planned credential.
    fn request(&self) -> (made: Result<git2::Cred, git2::Error>)
        ensures
            self@.holds_nul() ==> made is Err,
    {
        match self {
            CredentialPlan::UserPass { username, password } => git2::Cred::userpass_plaintext(
                username.as_str(),
                password.as_str(),
            ),
            CredentialPlan::SshKey { username, key_path } => ssh_key(
                username.as_str(),
                None,
                key_path.as_str(),
                None,
            ),
            CredentialPlan::SshAgent { username } => git2::Cred::ssh_key_from_agent(
                username.as_str(),
            ),
        }
    }
}

impl CredentialPlanView {
    /// One of the texts that the plan hands to the store holds a NUL
    /// character. No credential can carry such a text, and the store refuses.
    pub open spec fn holds_nul(self) -> bool {
        match self {
            CredentialPlanView::UserPass { username, password } => username.contains('\0')
                || password.contains('\0'),
            CredentialPlanView::SshKey { username, key_path } => username.contains('\0')
                || key_path.contains('\0'),
            CredentialPlanView::SshAgent { username } => username.contains('\0'),
        }
    }
}

/// Turns the store's answer for `plan` into the resolver's answer: a credential
/// passes through, a refusal becomes the error that belongs to the plan.
pub fn credential_outcome(plan: &CredentialPlan, made: Result<git2::Cred, String>) -> (outcome:
    Result<git2::Cred, AuthError>)
    ensures
        match made {
            Ok(credential) => outcome == Ok::<git2::Cred, AuthError>(credential),
            Err(text) => outcome is Err && outcome->Err_0@ == plan@.failure(text@),
        },
{
    match made {
        Ok(credential) => Ok(credential),
        Err(text) => Err(plan.failure(text)),
    }
}

/// Resolves the credential for `url`.
///
/// A URL with the scheme `http://` or `https://` needs both `username` and
/// `password`, and is answered with the two as plain text; any other URL is
/// answered with the key file at `ssh_key_path`, or with the agent when no
/// path is given, in both cases for the user `git`. Whether the store can then
/// build the credential is for the store to say; it never can where a text
/// handed to it holds a NUL character.
pub fn get_credentials(
    url: &str,
    username: &Option<String>,
    password: &Option<String>,
    ssh_key_path: &Option<String>,
) -> (outcome: Result<git2::Cred, AuthError>)
    ensures
        match credential_plan(
            url@,
            username.deep_view(),
            password.deep_view(),
            ssh_key_path.deep_view(),
        ) {
            Err(refusal) => outcome is Err && outcome->Err_0@ == refusal,
            Ok(plan) => {
                &&& outcome is Err ==> exists|text: Seq<char>|
                    outcome->Err_0@ == plan.failure(text)
                &&& plan.holds_nul() ==> outcome is Err
            },
        },
{
    match plan_credentials(url, username, password, ssh_key_path) {
        Err(refusal) => Err(refusal),
        Ok(plan) => {
            let made = match plan.request() {
                Ok(credential) => Ok(credential),
                Err(error) => Err(error.to_string()),
            };
            credential_outcome(&plan, made)
        },
    }
}

} // verus!
