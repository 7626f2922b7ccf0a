use rdroidtest::trial::{plain_trial, qualified_name};

#[test]
fn plain_test_materializes_one_named_trial() {
    let t = plain_trial("keys::test_string_equality".to_string(), 0u32, false, None);
    assert_eq!(t.name, "keys::test_string_equality");
    assert!(!t.ignored);
    assert_eq!(t.runnable, 0u32);
}

#[test]
fn always_ignore_overrides_false_predicate() {
    let t = plain_trial("overridden".to_string(), 0u32, true, Some(false));
    assert!(t.ignored);
}

#[test]
fn always_ignore_overrides_true_predicate() {
    let t = plain_trial("still_ignored".to_string(), 0u32, true, Some(true));
    assert!(t.ignored);
}

#[test]
fn always_ignore_needs_no_predicate() {
    let t = plain_trial("marked".to_string(), 0u32, true, None);
    assert!(t.ignored);
}

#[test]
fn predicate_alone_decides() {
    assert!(plain_trial("skipped".to_string(), 0u32, false, Some(true)).ignored);
    assert!(!plain_trial("run".to_string(), 0u32, false, Some(false)).ignored);
}

#[test]
fn no_marker_no_predicate_runs() {
    assert!(!plain_trial("plain".to_string(), 0u32, false, None).ignored);
}

#[test]
fn qualification_drops_the_crate_segment() {
    assert_eq!(qualified_name("mycrate::keys::tests", "test_eq"), "keys::tests::test_eq");
    assert_eq!(qualified_name("mycrate::keys", "test_eq"), "keys::test_eq");
}

#[test]
fn qualification_at_crate_root_is_the_bare_name() {
    assert_eq!(qualified_name("mycrate", "test_eq"), "test_eq");
    assert_eq!(qualified_name("", "test_eq"), "test_eq");
}
