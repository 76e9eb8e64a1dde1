//! Error taxonomy of the engine and the text each error shows to a caller.

use vstd::prelude::*;
use vstd::string::StringExecFns;

verus! {

/// Why no credential could be produced for a remote.
#[derive(Debug, PartialEq, Eq)]
pub enum AuthError {
    /// An HTTP(S) remote was addressed without both a user name and a password.
    MissingCredentials,
    /// The user name or password could not be turned into a credential.
    InvalidCredentials(String),
    /// The key-file credential could not be built.
    KeyError(String),
    /// The agent-based credential could not be built.
    AgentError(String),
}

/// Mathematical value of an [`AuthError`].
pub enum AuthErrorView {
    MissingCredentials,
    InvalidCredentials(Seq<char>),
    KeyError(Seq<char>),
    AgentError(Seq<char>),
}

impl DeepView for AuthError {
    type V = AuthErrorView;

    open spec fn deep_view(&self) -> AuthErrorView {
        match *self {
            AuthError::MissingCredentials => AuthErrorView::MissingCredentials,
            AuthError::InvalidCredentials(m) => AuthErrorView::InvalidCredentials(m.deep_view()),
            AuthError::KeyError(m) => AuthErrorView::KeyError(m.deep_view()),
            AuthError::AgentError(m) => AuthErrorView::AgentError(m.deep_view()),
        }
    }
}

impl View for AuthError {
    type V = AuthErrorView;

    open spec fn view(&self) -> AuthErrorView {
        self.deep_view()
    }
}

/// Why a peer certificate was not accepted.
#[derive(Debug, PartialEq, Eq)]
pub enum CertError {
    /// The bytes are not a certificate; the payload is the parser's report.
    ParseError(String),
    /// No name in the certificate equals the host; the payload is that host.
    HostnameMismatch(String),
}

/// Mathematical value of a [`CertError`].
pub enum CertErrorView {
    ParseError(Seq<char>),
    HostnameMismatch(Seq<char>),
}

impl DeepView for CertError {
    type V = CertErrorView;

    open spec fn deep_view(&self) -> CertErrorView {
        match *self {
            CertError::ParseError(m) => CertErrorView::ParseError(m.deep_view()),
            CertError::HostnameMismatch(h) => CertErrorView::HostnameMismatch(h.deep_view()),
        }
    }
}

impl View for CertError {
    type V = CertErrorView;

    open spec fn view(&self) -> CertErrorView {
        self.deep_view()
    }
}

/// Every failure an engine operation can report.
#[derive(Debug, PartialEq, Eq)]
pub enum GitError {
    /// Filesystem or process failure.
    Io(String),
    /// Failure inside the version-control store: bad refs, missing objects,
    /// a remote that does not exist.
    Repository(String),
    /// No usable credential.
    Auth(AuthError),
    /// The peer's certificate was rejected.
    Cert(CertError),
    /// Local and fetched history have diverged; a fast-forward is impossible.
    Diverged,
    /// A conflict-resolution command ended with a non-zero status; the payload
    /// is what it wrote to standard error.
    ConflictResolution(String),
}

/// Mathematical value of a [`GitError`].
pub enum GitErrorView {
    Io(Seq<char>),
    Repository(Seq<char>),
    Auth(AuthErrorView),
    Cert(CertErrorView),
    Diverged,
    ConflictResolution(Seq<char>),
}

impl DeepView for GitError {
    type V = GitErrorView;

    open spec fn deep_view(&self) -> GitErrorView {
        match *self {
            GitError::Io(m) => GitErrorView::Io(m.deep_view()),
            GitError::Repository(m) => GitErrorView::Repository(m.deep_view()),
            GitError::Auth(e) => GitErrorView::Auth(e.deep_view()),
            GitError::Cert(e) => GitErrorView::Cert(e.deep_view()),
            GitError::Diverged => GitErrorView::Diverged,
            GitError::ConflictResolution(m) => GitErrorView::ConflictResolution(m.deep_view()),
        }
    }
}

impl View for GitError {
    type V = GitErrorView;

    open spec fn view(&self) -> GitErrorView {
        self.deep_view()
    }
}

/// Mathematical value of a result: the value of what it holds, either way.
pub open spec fn result_view<T: DeepView, E: DeepView>(r: Result<T, E>) -> Result<T::V, E::V> {
    match r {
        Ok(t) => Ok(t.deep_view()),
        Err(e) => Err(e.deep_view()),
    }
}

impl AuthErrorView {
    /// Text shown for this error.
    pub open spec fn message(self) -> Seq<char> {
        match self {
            AuthErrorView::MissingCredentials => "Credentials required for HTTPS"@,
            AuthErrorView::InvalidCredentials(m) => m,
            AuthErrorView::KeyError(m) => m,
            AuthErrorView::AgentError(m) => m,
        }
    }
}

impl CertErrorView {
    /// Text shown for this error.
    pub open spec fn message(self) -> Seq<char> {
        match self {
            CertErrorView::ParseError(m) => "Failed to parse certificate for hostname check: "@
                + m,
            CertErrorView::HostnameMismatch(h) => "Hostname '"@ + h
                + "' does not match certificate"@,
        }
    }
}

impl GitErrorView {
    /// Text shown for this error.
    pub open spec fn message(self) -> Seq<char> {
        match self {
            GitErrorView::Io(m) => m,
            GitErrorView::Repository(m) => m,
            GitErrorView::Auth(e) => e.message(),
            GitErrorView::Cert(e) => e.message(),
            GitErrorView::Diverged => "Non-fast-forward merge required"@,
            GitErrorView::ConflictResolution(m) => m,
        }
    }
}

impl Clone for AuthError {
    fn clone(&self) -> (copy: AuthError)
        ensures
            copy@ == self@,
    {
        match self {
            AuthError::MissingCredentials => AuthError::MissingCredentials,
            AuthError::InvalidCredentials(m) => AuthError::InvalidCredentials(m.clone()),
            AuthError::KeyError(m) => AuthError::KeyError(m.clone()),
            AuthError::AgentError(m) => AuthError::AgentError(m.clone()),
        }
    }
}

impl Clone for CertError {
    fn clone(&self) -> (copy: CertError)
        ensures
            copy@ == self@,
    {
        match self {
            CertError::ParseError(m) => CertError::ParseError(m.clone()),
            CertError::HostnameMismatch(h) => CertError::HostnameMismatch(h.clone()),
        }
    }
}

impl Clone for GitError {
    fn clone(&self) -> (copy: GitError)
        ensures
            copy@ == self@,
    {
        match self {
            GitError::Io(m) => GitError::Io(m.clone()),
            GitError::Repository(m) => GitError::Repository(m.clone()),
            GitError::Auth(e) => GitError::Auth(e.clone()),
            GitError::Cert(e) => GitError::Cert(e.clone()),
            GitError::Diverged => GitError::Diverged,
            GitError::ConflictResolution(m) => GitError::ConflictResolution(m.clone()),
        }
    }
}

impl AuthError {
    /// The text of this error.
    pub fn message(&self) -> (text: String)
        ensures
            text@ == self@.message(),
    {
        match self {
            AuthError::MissingCredentials => String::from_str("Credentials required for HTTPS"),
            AuthError::InvalidCredentials(m) => m.clone(),
            AuthError::KeyError(m) => m.clone(),
            AuthError::AgentError(m) => m.clone(),
        }
    }
}

impl CertError {
    /// The text of this error.
    pub fn message(&self) -> (text: String)
        ensures
            text@ == self@.message(),
    {
        match self {
            CertError::ParseError(m) => {
                String::from_str("Failed to parse certificate for hostname check: ").concat(
                    m.as_str(),
                )
            },
            CertError::HostnameMismatch(h) => {
                String::from_str("Hostname '").concat(h.as_str()).concat(
                    "' does not match certificate",
                )
            },
        }
    }
}

impl GitError {
    /// The text of this error.
    pub fn message(&self) -> (text: String)
        ensures
            text@ == self@.message(),
    {
        match self {
            GitError::Io(m) => m.clone(),
            GitError::Repository(m) => m.clone(),
            GitError::Auth(e) => e.message(),
            GitError::Cert(e) => e.message(),
            GitError::Diverged => String::from_str("Non-fast-forward merge required"),
            GitError::ConflictResolution(m) => m.clone(),
        }
    }
}

} // verus!
