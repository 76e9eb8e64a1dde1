use git_sync::certificate::{
    certificate_outcome, check_hostname, check_peer_certificate, validate_certificate, AltName,
    CertificateNames, SubjectAltNames,
};
use git_sync::error::CertError;

fn from_hex(lines: &[&str]) -> Vec<u8> {
    let mut bytes: Vec<u8> = Vec::new();
    for line in lines {
        let digits: Vec<char> = line.chars().collect();
        for pair in digits.chunks(2) {
            let high: u32 = pair[0].to_digit(16).unwrap();
            let low: u32 = pair[1].to_digit(16).unwrap();
            bytes.push((high * 16 + low) as u8);
        }
    }
    bytes
}

/// Subject `O=Test, CN=unrelated.test`; alternative names: DNS `example.com`.
fn certificate_with_alt_name() -> Vec<u8> {
    from_hex(&[
        "308201be30820165a003020102021430a2a1f4a36eba2c02ac5a795102e9b20a",
        "699b39300a06082a8648ce3d0403023028310d300b060355040a0c0454657374",
        "3117301506035504030c0e756e72656c617465642e746573743020170d323631",
        "3032383230353434315a180f32313236313030343230353434315a3028310d30",
        "0b060355040a0c04546573743117301506035504030c0e756e72656c61746564",
        "2e746573743059301306072a8648ce3d020106082a8648ce3d03010703420004",
        "168ecd9dbe99f5b88ba84713830b34e9229756f205bfc6cfb68be7f03db99c60",
        "4e063f82d3f9cd570cd217ef8b5a98d569ba36c0bd2446ed20d2f072abf24a46",
        "a36b3069301d0603551d0e04160414ae53830b9722bbf3f1f00da2295b8a7731",
        "296b49301f0603551d23041830168014ae53830b9722bbf3f1f00da2295b8a77",
        "31296b49300f0603551d130101ff040530030101ff30160603551d11040f300d",
        "820b6578616d706c652e636f6d300a06082a8648ce3d04030203470030440220",
        "511933a59bd800ca867c8798ae72d3cedf9f778e8b473e3e1307d91698b71821",
        "022048cd2fd4f667e50239d5c23dba40c61494a6aab5f39c5ddc2c43925068a5",
        "95d5",
    ])
}

/// Subject `CN=example.com`; no alternative names.
fn certificate_with_common_name_only() -> Vec<u8> {
    from_hex(&[
        "3082018330820129a00302010202140c5d7488c318217b441e697801666841ce",
        "93e6cb300a06082a8648ce3d04030230163114301206035504030c0b6578616d",
        "706c652e636f6d3020170d3236313032383230353434325a180f323132363130",
        "30343230353434325a30163114301206035504030c0b6578616d706c652e636f",
        "6d3059301306072a8648ce3d020106082a8648ce3d03010703420004168ecd9d",
        "be99f5b88ba84713830b34e9229756f205bfc6cfb68be7f03db99c604e063f82",
        "d3f9cd570cd217ef8b5a98d569ba36c0bd2446ed20d2f072abf24a46a3533051",
        "301d0603551d0e04160414ae53830b9722bbf3f1f00da2295b8a7731296b4930",
        "1f0603551d23041830168014ae53830b9722bbf3f1f00da2295b8a7731296b49",
        "300f0603551d130101ff040530030101ff300a06082a8648ce3d040302034800",
        "30450220201be199753ae1e1901f624752cda42278d200ccb6b33ea89517a5e3",
        "847054d6022100b038479d5253edb88be2b82e5de55d5663dc2ca3fd55158967",
        "95e9680cccd48b",
    ])
}

/// Subject `CN=unrelated.test`; alternative names: DNS `*.example.com`,
/// IP `127.0.0.1`, DNS `second.test`.
fn certificate_with_wildcard() -> Vec<u8> {
    from_hex(&[
        "308201b73082015da003020102021403c7c1d8546dbee65d382958383edd40e0",
        "d6f21b300a06082a8648ce3d04030230193117301506035504030c0e756e7265",
        "6c617465642e746573743020170d3236313032383230353434325a180f323132",
        "36313030343230353434325a30193117301506035504030c0e756e72656c6174",
        "65642e746573743059301306072a8648ce3d020106082a8648ce3d0301070342",
        "0004168ecd9dbe99f5b88ba84713830b34e9229756f205bfc6cfb68be7f03db9",
        "9c604e063f82d3f9cd570cd217ef8b5a98d569ba36c0bd2446ed20d2f072abf2",
        "4a46a38180307e301d0603551d0e04160414ae53830b9722bbf3f1f00da2295b",
        "8a7731296b49301f0603551d23041830168014ae53830b9722bbf3f1f00da229",
        "5b8a7731296b49300f0603551d130101ff040530030101ff302b0603551d1104",
        "243022820d2a2e6578616d706c652e636f6d87047f000001820b7365636f6e64",
        "2e74657374300a06082a8648ce3d0403020348003045022033d648fb766b2344",
        "305e5efb2707a713d0bd2662b5ac9868df19aa383b9790f4022100c8fa437ad9",
        "0c5b2815a2e37eb1d5297dc4d35e74c27d7b55c8e1c4302774d45f",
    ])
}

fn names(alt_names: SubjectAltNames, common_names: Vec<Option<&str>>) -> CertificateNames {
    CertificateNames {
        alt_names,
        common_names: common_names.into_iter().map(|n| n.map(|s| s.to_string())).collect(),
    }
}

fn dns(name: &str) -> AltName {
    AltName::Dns(name.to_string())
}

fn mismatch(host: &str) -> Result<(), CertError> {
    Err(CertError::HostnameMismatch(host.to_string()))
}

#[test]
fn alt_name_that_equals_the_host_is_accepted() {
    let der = certificate_with_alt_name();
    assert_eq!(validate_certificate("example.com", &der), Ok(()));
}

#[test]
fn other_host_is_a_hostname_mismatch() {
    let der = certificate_with_alt_name();
    assert_eq!(validate_certificate("evil.com", &der), mismatch("evil.com"));
}

#[test]
fn common_name_is_used_when_there_are_no_alt_names() {
    let der = certificate_with_common_name_only();
    assert_eq!(validate_certificate("example.com", &der), Ok(()));
    assert_eq!(validate_certificate("evil.com", &der), mismatch("evil.com"));
}

#[test]
fn common_name_counts_beside_alt_names() {
    let der = certificate_with_alt_name();
    assert_eq!(validate_certificate("unrelated.test", &der), Ok(()));
}

#[test]
fn host_names_are_compared_with_case() {
    let der = certificate_with_alt_name();
    assert_eq!(validate_certificate("Example.com", &der), mismatch("Example.com"));
    assert_eq!(validate_certificate("EXAMPLE.COM", &der), mismatch("EXAMPLE.COM"));
}

#[test]
fn wildcards_are_not_expanded() {
    let der = certificate_with_wildcard();
    assert_eq!(validate_certificate("www.example.com", &der), mismatch("www.example.com"));
    assert_eq!(validate_certificate("*.example.com", &der), Ok(()));
    assert_eq!(validate_certificate("second.test", &der), Ok(()));
    assert_eq!(validate_certificate("127.0.0.1", &der), mismatch("127.0.0.1"));
}

#[test]
fn malformed_bytes_are_a_parse_error() {
    let garbage: Vec<u8> = vec![0x30, 0x03, 0x01, 0x02];
    assert!(matches!(
        validate_certificate("example.com", &garbage),
        Err(CertError::ParseError(_))
    ));
    let empty: Vec<u8> = Vec::new();
    assert!(matches!(
        validate_certificate("example.com", &empty),
        Err(CertError::ParseError(_))
    ));
    let mut truncated = certificate_with_alt_name();
    truncated.truncate(100);
    assert!(matches!(
        validate_certificate("example.com", &truncated),
        Err(CertError::ParseError(_))
    ));
}

#[test]
fn validation_gives_the_same_answer_each_time() {
    let der = certificate_with_alt_name();
    let first = validate_certificate("evil.com", &der);
    let second = validate_certificate("evil.com", &der);
    assert_eq!(first, second);
}

#[test]
fn peer_without_decodable_certificate_is_accepted() {
    assert_eq!(check_peer_certificate("example.com", None), Ok(()));
    assert_eq!(check_peer_certificate("evil.com", None), Ok(()));
}

#[test]
fn peer_with_certificate_is_validated() {
    let der = certificate_with_alt_name();
    assert_eq!(check_peer_certificate("example.com", Some(&der)), Ok(()));
    assert_eq!(check_peer_certificate("evil.com", Some(&der)), mismatch("evil.com"));
    let garbage: Vec<u8> = vec![1, 2, 3];
    assert!(matches!(
        check_peer_certificate("example.com", Some(&garbage)),
        Err(CertError::ParseError(_))
    ));
}

#[test]
fn listed_dns_name_names_the_host() {
    let listed = names(
        SubjectAltNames::Present(vec![AltName::Other, dns("a.test"), dns("example.com")]),
        vec![],
    );
    assert!(listed.alt_name_is("example.com"));
    assert!(listed.alt_name_is("a.test"));
    assert!(!listed.alt_name_is("b.test"));
    assert_eq!(check_hostname("example.com", &listed), Ok(()));
    assert_eq!(check_hostname("b.test", &listed), mismatch("b.test"));
}

#[test]
fn absent_or_unreadable_alt_names_name_nobody() {
    let absent = names(SubjectAltNames::Absent, vec![]);
    let unreadable = names(SubjectAltNames::Unreadable, vec![]);
    let empty = names(SubjectAltNames::Present(vec![]), vec![]);
    assert_eq!(check_hostname("example.com", &absent), mismatch("example.com"));
    assert_eq!(check_hostname("example.com", &unreadable), mismatch("example.com"));
    assert_eq!(check_hostname("example.com", &empty), mismatch("example.com"));
}

#[test]
fn only_the_first_common_name_counts() {
    let two = names(SubjectAltNames::Absent, vec![Some("first.test"), Some("example.com")]);
    assert!(two.common_name_is("first.test"));
    assert!(!two.common_name_is("example.com"));
    assert_eq!(check_hostname("first.test", &two), Ok(()));
    assert_eq!(check_hostname("example.com", &two), mismatch("example.com"));
}

#[test]
fn common_name_that_is_no_text_names_nobody() {
    let unreadable = names(SubjectAltNames::Absent, vec![None, Some("example.com")]);
    assert!(!unreadable.common_name_is("example.com"));
    assert_eq!(check_hostname("example.com", &unreadable), mismatch("example.com"));
}

#[test]
fn parser_report_becomes_a_parse_error() {
    let outcome = certificate_outcome("example.com", Err("bad header".to_string()));
    assert_eq!(outcome, Err(CertError::ParseError("bad header".to_string())));
    assert_eq!(
        CertError::ParseError("bad header".to_string()).message(),
        "Failed to parse certificate for hostname check: bad header"
    );
}

#[test]
fn read_names_are_held_against_the_host() {
    let read = || names(SubjectAltNames::Present(vec![dns("example.com")]), vec![Some("cn.test")]);
    assert_eq!(certificate_outcome("example.com", Ok(read())), Ok(()));
    assert_eq!(certificate_outcome("cn.test", Ok(read())), Ok(()));
    assert_eq!(certificate_outcome("evil.com", Ok(read())), mismatch("evil.com"));
    assert_eq!(
        CertError::HostnameMismatch("evil.com".to_string()).message(),
        "Hostname 'evil.com' does not match certificate"
    );
}
