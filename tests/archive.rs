use eva_launcher::archive::{entry_stays_inside, plan_entries, plan_entry, EntryPlan};

#[test]
fn traversal_entry_rejected_siblings_extract() {
    let names = vec![
        "bundle/".to_string(),
        "../evil.txt".to_string(),
        "bundle/readme.md".to_string(),
        "bundle/../../escape".to_string(),
    ];
    let plans = plan_entries(&names, &vec![true, true, true, true]);
    assert_eq!(
        plans,
        vec![EntryPlan::MakeDirectory, EntryPlan::Reject, EntryPlan::WriteFile, EntryPlan::Reject]
    );
}

#[test]
fn inner_parent_that_stays_inside_is_accepted() {
    assert!(entry_stays_inside("a/b/../c.txt"));
    assert_eq!(plan_entry("a/./b/../c.txt", true), EntryPlan::WriteFile);
}

#[test]
fn absolute_drive_and_nul_rejected() {
    assert!(!entry_stays_inside("/etc/passwd"));
    assert!(!entry_stays_inside("\\windows\\x"));
    assert!(!entry_stays_inside("C:evil"));
    assert!(!entry_stays_inside("a\0b"));
    assert!(!entry_stays_inside("a\\..\\..\\b"));
}

#[test]
fn reader_verdict_is_honoured() {
    assert_eq!(plan_entry("ok.txt", false), EntryPlan::Reject);
    assert_eq!(plan_entry("ok.txt", true), EntryPlan::WriteFile);
}
