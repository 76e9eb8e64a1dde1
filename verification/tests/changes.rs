use git_sync::deletions::{collect_deleted, ChangeKind, TreeChange};
use git_sync::merge::{classify, MergeAnalysis, MergeClassification};
use git_sync::status::{has_local_changes, FileStatus, StatusEntry};
use git_sync::trust::bundle_trust_anchors;

fn clean() -> FileStatus {
    FileStatus {
        index_new: false,
        index_modified: false,
        index_deleted: false,
        wt_new: false,
        wt_modified: false,
        wt_deleted: false,
    }
}

fn change(kind: ChangeKind, old_path: Option<&str>) -> TreeChange {
    TreeChange { kind, old_path: old_path.map(|p| p.to_string()) }
}

#[test]
fn each_kind_of_change_counts() {
    assert!(!clean().is_local_change());
    assert!(FileStatus { index_new: true, ..clean() }.is_local_change());
    assert!(FileStatus { index_modified: true, ..clean() }.is_local_change());
    assert!(FileStatus { index_deleted: true, ..clean() }.is_local_change());
    assert!(FileStatus { wt_new: true, ..clean() }.is_local_change());
    assert!(FileStatus { wt_modified: true, ..clean() }.is_local_change());
    assert!(FileStatus { wt_deleted: true, ..clean() }.is_local_change());
}

#[test]
fn a_listing_has_changes_when_one_path_has() {
    assert!(!has_local_changes(&vec![]));
    assert!(!has_local_changes(&vec![clean(), clean()]));
    assert!(has_local_changes(&vec![clean(), FileStatus { wt_new: true, ..clean() }]));
    assert!(has_local_changes(&vec![FileStatus { index_deleted: true, ..clean() }, clean()]));
    assert!(has_local_changes(&vec![clean(), clean(), FileStatus { wt_modified: true, ..clean() }]));
}

#[test]
fn status_entry_keeps_path_and_state() {
    let entry = StatusEntry::new(Some("src/a.rs".to_string()), "Status(WT_NEW)".to_string());
    assert_eq!(entry.path, "src/a.rs");
    assert_eq!(entry.status, "Status(WT_NEW)");
    let nameless = StatusEntry::new(None, "Status(WT_NEW)".to_string());
    assert_eq!(nameless.path, "unknown");
}

#[test]
fn classification_follows_the_analysis() {
    let up = MergeAnalysis { up_to_date: true, fast_forward: false };
    let forward = MergeAnalysis { up_to_date: false, fast_forward: true };
    let neither = MergeAnalysis { up_to_date: false, fast_forward: false };
    let both = MergeAnalysis { up_to_date: true, fast_forward: true };
    assert_eq!(classify(up), MergeClassification::UpToDate);
    assert_eq!(classify(forward), MergeClassification::FastForward);
    assert_eq!(classify(neither), MergeClassification::Diverged);
    assert_eq!(classify(both), MergeClassification::UpToDate);
}

#[test]
fn deleted_paths_are_collected_in_order() {
    let changes = vec![
        change(ChangeKind::Modified, Some("kept.txt")),
        change(ChangeKind::Deleted, Some("old.txt")),
        change(ChangeKind::Added, None),
        change(ChangeKind::Deleted, Some("dir/gone.txt")),
        change(ChangeKind::Other, Some("renamed.txt")),
    ];
    assert_eq!(collect_deleted(&changes), vec!["old.txt".to_string(), "dir/gone.txt".to_string()]);
}

#[test]
fn deletion_without_a_path_removes_nothing() {
    let changes = vec![change(ChangeKind::Deleted, None)];
    assert_eq!(collect_deleted(&changes), Vec::<String>::new());
    assert_eq!(collect_deleted(&vec![]), Vec::<String>::new());
    assert_eq!(change(ChangeKind::Deleted, Some("a")).removal(), Some("a".to_string()));
    assert_eq!(change(ChangeKind::Added, Some("a")).removal(), None);
}

#[test]
fn trust_anchors_are_bundled_one_after_the_other() {
    let first = "-----BEGIN CERTIFICATE-----\nAAA\n-----END CERTIFICATE-----\n".to_string();
    let second = "-----BEGIN CERTIFICATE-----\nBBB\n-----END CERTIFICATE-----\n".to_string();
    let bundle = bundle_trust_anchors(&vec![first.clone(), second.clone()]);
    assert_eq!(bundle, format!("{}{}", first, second));
    assert_eq!(bundle_trust_anchors(&vec![]), "");
    assert_eq!(bundle_trust_anchors(&vec!["a".to_string(), String::new(), "b".to_string()]), "ab");
}
