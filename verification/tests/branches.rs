use git_sync::branch::{branch_reference, default_branch, head_branch, resolve_branch_name};
use git_sync::text::{copy_all, starts_with, strip_prefix};

#[test]
fn head_on_a_branch_gives_that_branch() {
    assert_eq!(head_branch(Some("refs/heads/master")), Some("master".to_string()));
    assert_eq!(head_branch(Some("refs/heads/feature/login")), Some("feature/login".to_string()));
    assert_eq!(head_branch(Some("refs/heads/")), Some(String::new()));
}

#[test]
fn head_elsewhere_is_on_no_branch() {
    assert_eq!(head_branch(Some("HEAD")), None);
    assert_eq!(head_branch(Some("refs/tags/v1")), None);
    assert_eq!(head_branch(Some("refs/heads")), None);
    assert_eq!(head_branch(Some("Refs/Heads/master")), None);
    assert_eq!(head_branch(Some("")), None);
    assert_eq!(head_branch(None), None);
}

#[test]
fn branch_is_resolved_from_head_first() {
    let advertised = Some("refs/heads/trunk".to_string());
    assert_eq!(resolve_branch_name(Some("refs/heads/dev"), advertised), "dev");
    assert_eq!(resolve_branch_name(Some("refs/heads/dev"), None), "dev");
}

#[test]
fn detached_head_falls_back_to_the_remote_default() {
    let advertised = Some("refs/heads/trunk".to_string());
    assert_eq!(resolve_branch_name(Some("HEAD"), advertised.clone()), "refs/heads/trunk");
    assert_eq!(resolve_branch_name(None, advertised), "refs/heads/trunk");
    assert_eq!(default_branch(Some("develop".to_string())), "develop");
}

#[test]
fn without_head_and_remote_the_branch_is_main() {
    assert_eq!(resolve_branch_name(None, None), "main");
    assert_eq!(resolve_branch_name(Some("HEAD"), None), "main");
    assert_eq!(default_branch(None), "main");
}

#[test]
fn current_branch_off_branches_is_the_default_or_main() {
    assert_eq!(resolve_branch_name(Some("refs/heads/master"), None), "master");
    assert_eq!(resolve_branch_name(Some("HEAD"), Some("develop".to_string())), "develop");
    assert_eq!(resolve_branch_name(None, Some("develop".to_string())), "develop");
    assert_eq!(resolve_branch_name(Some("HEAD"), None), "main");
    assert_eq!(resolve_branch_name(Some("refs/tags/v1"), None), "main");
    assert_eq!(resolve_branch_name(None, None), "main");
}

#[test]
fn reference_of_a_branch() {
    assert_eq!(branch_reference("master"), "refs/heads/master");
    assert_eq!(branch_reference(""), "refs/heads/");
    assert_eq!(branch_reference("feature/x"), "refs/heads/feature/x");
}

#[test]
fn reference_names_its_branch() {
    for branch in ["master", "main", "feature/login", "", "refs/heads/odd", "zweig-\u{00e4}"] {
        let reference = branch_reference(branch);
        assert_eq!(head_branch(Some(reference.as_str())), Some(branch.to_string()));
    }
}

#[test]
fn prefixes_are_compared_by_character() {
    assert!(starts_with("https://x", "http"));
    assert!(starts_with("http", "http"));
    assert!(starts_with("anything", ""));
    assert!(starts_with("", ""));
    assert!(!starts_with("htt", "http"));
    assert!(!starts_with("Http://x", "http"));
    assert!(!starts_with("", "a"));
    assert!(starts_with("\u{00e4}bc", "\u{00e4}b"));
    assert!(!starts_with("abc", "\u{00e4}"));
}

#[test]
fn stripping_keeps_the_rest() {
    assert_eq!(strip_prefix("refs/heads/x", "refs/heads/"), Some("x".to_string()));
    assert_eq!(strip_prefix("\u{00e4}\u{00f6}\u{00fc}", "\u{00e4}"), Some("\u{00f6}\u{00fc}".to_string()));
    assert_eq!(strip_prefix("abc", "abc"), Some(String::new()));
    assert_eq!(strip_prefix("abc", ""), Some("abc".to_string()));
    assert_eq!(strip_prefix("abc", "b"), None);
    assert_eq!(strip_prefix("ab", "abc"), None);
}

#[test]
fn copies_keep_order_and_text() {
    let texts = vec!["b".to_string(), "a".to_string(), String::new(), "b".to_string()];
    assert_eq!(copy_all(&texts), texts);
    let none: Vec<String> = Vec::new();
    assert_eq!(copy_all(&none), none);
}
