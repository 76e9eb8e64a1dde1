//! Peer-identity validation: does an X.509 certificate name the host that the
//! transport is talking to?
//!
//! A host is named when a DNS entry of the certificate's subject alternative
//! names equals it, or else when the subject's first common name equals it.
//! Names are compared exactly: case matters and wildcards are not expanded.

use vstd::prelude::*;
use crate::error::{result_view, CertError, CertErrorView};

verus! {

/// One entry of a certificate's subject alternative names.
#[derive(Debug, PartialEq, Eq)]
pub enum AltName {
    /// A DNS name, as written in the certificate.
    Dns(String),
    /// Any other kind of entry.
    Other,
}

/// Mathematical value of an [`AltName`].
pub enum AltNameView {
    Dns(Seq<char>),
    Other,
}

impl DeepView for AltName {
    type V = AltNameView;

    open spec fn deep_view(&self) -> AltNameView {
        match *self {
            AltName::Dns(name) => AltNameView::Dns(name@),
            AltName::Other => AltNameView::Other,
        }
    }
}

impl View for AltName {
    type V = AltNameView;

    open spec fn view(&self) -> AltNameView {
        self.deep_view()
    }
}

/// The subject alternative name extension of a certificate.
#[derive(Debug, PartialEq, Eq)]
pub enum SubjectAltNames {
    /// The extension is there once; these are its entries, in order.
    Present(Vec<AltName>),
    /// The certificate has no such extension.
    Absent,
    /// The extension is repeated or cannot be read.
    Unreadable,
}

/// Mathematical value of a [`SubjectAltNames`].
pub enum SubjectAltNamesView {
    Present(Seq<AltNameView>),
    Absent,
    Unreadable,
}

impl DeepView for SubjectAltNames {
    type V = SubjectAltNamesView;

    open spec fn deep_view(&self) -> SubjectAltNamesView {
        match *self {
            SubjectAltNames::Present(entries) => SubjectAltNamesView::Present(entries.deep_view()),
            SubjectAltNames::Absent => SubjectAltNamesView::Absent,
            SubjectAltNames::Unreadable => SubjectAltNamesView::Unreadable,
        }
    }
}

impl View for SubjectAltNames {
    type V = SubjectAltNamesView;

    open spec fn view(&self) -> SubjectAltNamesView {
        self.deep_view()
    }
}

/// The names a certificate carries, as far as host validation reads them.
#[derive(Debug, PartialEq, Eq)]
pub struct CertificateNames {
    /// The subject alternative names.
    pub alt_names: SubjectAltNames,
    /// The subject's common-name attributes in order; `None` stands for one
    /// whose value is not a text string.
    pub common_names: Vec<Option<String>>,
}

/// Mathematical value of a [`CertificateNames`].
pub struct CertificateNamesView {
    pub alt_names: SubjectAltNamesView,
    pub common_names: Seq<Option<Seq<char>>>,
}

impl DeepView for CertificateNames {
    type V = CertificateNamesView;

    open spec fn deep_view(&self) -> CertificateNamesView {
        CertificateNamesView {
            alt_names: self.alt_names.deep_view(),
            common_names: self.common_names.deep_view(),
        }
    }
}

impl View for CertificateNames {
    type V = CertificateNamesView;

    open spec fn view(&self) -> CertificateNamesView {
        self.deep_view()
    }
}

impl CertificateNamesView {
    /// Some DNS entry of the subject alternative names equals `host`.
    pub open spec fn alt_name_is(self, host: Seq<char>) -> bool {
        self.alt_names matches SubjectAltNamesView::Present(entries) && entries.contains(
            AltNameView::Dns(host),
        )
    }

    /// The first common name is text and equals `host`.
    pub open spec fn common_name_is(self, host: Seq<char>) -> bool {
        self.common_names.len() > 0 && self.common_names[0] == Some(host)
    }

    /// The certificate names `host`.
    pub open spec fn names_host(self, host: Seq<char>) -> bool {
        self.alt_name_is(host) || self.common_name_is(host)
    }
}

/// What the X.509 parser reads from DER bytes: the names of the certificate
/// that they encode, or the parser's report when they encode none.
pub uninterp spec fn x509_names(der: Seq<u8>) -> Result<CertificateNamesView, Seq<char>>;

/// Reads the names out of a DER-encoded certificate.
///
/// `x509_parser::parse_x509_certificate` decodes the bytes; its error is kept
/// as text. Of the decoded certificate, `subject_alternative_name` gives the
/// extension (found once, not found, or in error) and its general names, of
/// which the DNS entries keep their text; `subject().iter_common_name()` gives
/// the common-name attributes, each read with `as_str`. The contract claims
/// only that this reading is a function of the bytes.
#[verifier::external_body]
fn read_certificate(der: &[u8]) -> (read: Result<CertificateNames, String>)
    ensures
        result_view(read) == x509_names(der@),
{
    let (_, cert) = x509_parser::parse_x509_certificate(der).map_err(|e| e.to_string())?;
    let alt_names = match cert.subject_alternative_name() {
        Ok(Some(ext)) => SubjectAltNames::Present(ext.value.general_names.iter().map(|n| match n {
            x509_parser::extensions::GeneralName::DNSName(dns) => AltName::Dns(dns.to_string()),
            _ => AltName::Other,
        }).collect()),
        Ok(None) => SubjectAltNames::Absent,
        Err(_) => SubjectAltNames::Unreadable,
    };
    let names = cert.subject().iter_common_name();
    let common_names = names.map(|cn| cn.as_str().ok().map(str::to_string)).collect();
    Ok(CertificateNames { alt_names, common_names })
}

/// The verdict on `host` for a certificate with the given names.
pub open spec fn hostname_verdict(host: Seq<char>, names: CertificateNamesView) -> Result<
    (),
    CertErrorView,
> {
    if names.names_host(host) {
        Ok(())
    } else {
        Err(CertErrorView::HostnameMismatch(host))
    }
}

/// The verdict on `host` for what the parser read.
pub open spec fn certificate_verdict(
    host: Seq<char>,
    read: Result<CertificateNamesView, Seq<char>>,
) -> Result<(), CertErrorView> {
    match read {
        Err(report) => Err(CertErrorView::ParseError(report)),
        Ok(names) => hostname_verdict(host, names),
    }
}

/// The verdict on `host` for what the transport handed over: without a
/// decodable certificate there is nothing to hold the host against, and the
/// peer is accepted.
pub open spec fn peer_verdict(host: Seq<char>, x509_der: Option<Seq<u8>>) -> Result<
    (),
    CertErrorView,
> {
    match x509_der {
        None => Ok(()),
        Some(der) => certificate_verdict(host, x509_names(der)),
    }
}

/// Whether some entry is the DNS name `host`.
fn lists_dns_name(entries: &Vec<AltName>, host: &str) -> (found: bool)
    ensures
        found == entries.deep_view().contains(AltNameView::Dns(host@)),
{
    let wanted = host.to_owned();
    let mut i: usize = 0;
    while i < entries.len()
        invariant
            i <= entries.len(),
            wanted@ == host@,
            forall|j: int| 0 <= j < i ==> entries.deep_view()[j] != AltNameView::Dns(host@),
        decreases entries.len() - i,
    {
        match &entries[i] {
            AltName::Dns(name) => {
                if *name == wanted {
                    assert(entries.deep_view()[i as int] == AltNameView::Dns(host@));
                    return true;
                }
            },
            AltName::Other => {},
        }
        i += 1;
    }
    false
}

impl CertificateNames {
    /// Whether a DNS entry of the subject alternative names equals `host`.
    pub fn alt_name_is(&self, host: &str) -> (found: bool)
        ensures
            found == self@.alt_name_is(host@),
    {
        match &self.alt_names {
            SubjectAltNames::Present(entries) => lists_dns_name(entries, host),
            _ => false,
        }
    }

    /// Whether the first common name is text and equals `host`.
    pub fn common_name_is(&self, host: &str) -> (found: bool)
        ensures
            found == self@.common_name_is(host@),
    {
        if self.common_names.len() == 0 {
            return false;
        }
        match &self.common_names[0] {
            Some(name) => {
                let wanted = host.to_owned();
                *name == wanted
            },
            None => false,
        }
    }
}

/// Holds `hostname` against the names of a certificate.
pub fn check_hostname(hostname: &str, names: &CertificateNames) -> (verdict: Result<
    (),
    CertError,
>)
    ensures
        result_view(verdict) == hostname_verdict(hostname@, names@),
{
    if names.alt_name_is(hostname) || names.common_name_is(hostname) {
        Ok(())
    } else {
        Err(CertError::HostnameMismatch(hostname.to_owned()))
    }
}

/// Holds `hostname` against what the parser read from a certificate.
pub fn certificate_outcome(hostname: &str, read: Result<CertificateNames, String>) -> (verdict:
    Result<(), CertError>)
    ensures
        result_view(verdict) == certificate_verdict(hostname@, result_view(read)),
{
    match read {
        Err(report) => Err(CertError::ParseError(report)),
        Ok(names) => check_hostname(hostname, &names),
    }
}

/// Validates a DER-encoded certificate against the host it was presented for.
///
/// Fails with `ParseError` when the bytes are no certificate, and with
/// `HostnameMismatch` when the certificate does not name the host.
pub fn validate_certificate(hostname: &str, cert_data: &[u8]) -> (verdict: Result<(), CertError>)
    ensures
        result_view(verdict) == certificate_verdict(hostname@, x509_names(cert_data@)),
{
    certificate_outcome(hostname, read_certificate(cert_data))
}

/// The certificate check of a transport. `x509_der` is the peer's certificate
/// where the transport can supply one in DER form, and `None` where it cannot;
/// in that case the peer is accepted unchecked.
pub fn check_peer_certificate(hostname: &str, x509_der: Option<&[u8]>) -> (verdict: Result<
    (),
    CertError,
>)
    ensures
        result_view(verdict) == peer_verdict(
            hostname@,
            match x509_der {
                Some(der) => Some(der@),
                None => None,
            },
        ),
{
    match x509_der {
        None => Ok(()),
        Some(der) => validate_certificate(hostname, der),
    }
}

} // verus!
