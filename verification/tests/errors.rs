use git_sync::error::{AuthError, CertError, GitError};

#[test]
fn each_error_has_its_text() {
    assert_eq!(GitError::Io("disk full".to_string()).message(), "disk full");
    assert_eq!(GitError::Repository("remote 'origin' does not exist".to_string()).message(),
        "remote 'origin' does not exist");
    assert_eq!(GitError::Auth(AuthError::MissingCredentials).message(),
        "Credentials required for HTTPS");
    assert_eq!(GitError::Cert(CertError::HostnameMismatch("h".to_string())).message(),
        "Hostname 'h' does not match certificate");
    assert_eq!(GitError::Cert(CertError::ParseError("eof".to_string())).message(),
        "Failed to parse certificate for hostname check: eof");
    assert_eq!(GitError::Diverged.message(), "Non-fast-forward merge required");
    assert_eq!(GitError::ConflictResolution("error: path".to_string()).message(), "error: path");
}

#[test]
fn a_copy_equals_what_it_copies() {
    let errors = vec![
        GitError::Io("a".to_string()),
        GitError::Repository("b".to_string()),
        GitError::Auth(AuthError::KeyError("c".to_string())),
        GitError::Auth(AuthError::AgentError("d".to_string())),
        GitError::Auth(AuthError::InvalidCredentials("e".to_string())),
        GitError::Auth(AuthError::MissingCredentials),
        GitError::Cert(CertError::ParseError("f".to_string())),
        GitError::Cert(CertError::HostnameMismatch("g".to_string())),
        GitError::Diverged,
        GitError::ConflictResolution("h".to_string()),
    ];
    for error in &errors {
        assert_eq!(&error.clone(), error);
    }
}
