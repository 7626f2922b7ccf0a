use rdroidtest::params::{expand, expand_ignore_if};

#[test]
fn instances_expand_in_generator_order() {
    let instances = vec![
        ("one".to_string(), 1u32),
        ("two".to_string(), 2u32),
        ("three".to_string(), 3u32),
    ];
    let trials = expand("is_even", instances, false);
    assert_eq!(trials.len(), 3);
    assert_eq!(trials[0].name, "is_even/one");
    assert_eq!(trials[1].name, "is_even/two");
    assert_eq!(trials[2].name, "is_even/three");
    assert_eq!(trials[0].runnable, 1);
    assert_eq!(trials[1].runnable, 2);
    assert_eq!(trials[2].runnable, 3);
    assert!(trials.iter().all(|t| !t.ignored));
}

#[test]
fn empty_generator_yields_no_trials() {
    let trials = expand::<u32>("vanishes", Vec::new(), false);
    assert_eq!(trials.len(), 0);
}

#[test]
fn per_instance_predicate_ignores_independently() {
    // "ignore if the value is not odd" over 1, 2, 3 ignores only the trial for 2
    let instances = vec![
        ("one".to_string(), 1u32),
        ("two".to_string(), 2u32),
        ("three".to_string(), 3u32),
    ];
    let trials = expand_ignore_if("odd_values", instances, false, |v: &u32| *v % 2 == 0);
    assert_eq!(trials.len(), 3);
    assert!(!trials[0].ignored);
    assert!(trials[1].ignored);
    assert!(!trials[2].ignored);
}

#[test]
fn always_ignore_forces_every_instance() {
    let instances = vec![("one".to_string(), 1u32), ("two".to_string(), 2u32)];
    let trials = expand_ignore_if("all_skipped", instances, true, |_v: &u32| false);
    assert_eq!(trials.len(), 2);
    assert!(trials.iter().all(|t| t.ignored));

    let instances = vec![("one".to_string(), 1u32), ("two".to_string(), 2u32)];
    let trials = expand("all_skipped_too", instances, true);
    assert_eq!(trials.len(), 2);
    assert!(trials.iter().all(|t| t.ignored));
}

#[test]
fn duplicate_labels_keep_both_trials() {
    let instances = vec![("dup".to_string(), 1u32), ("dup".to_string(), 2u32)];
    let trials = expand("collides", instances, false);
    assert_eq!(trials.len(), 2);
    assert_eq!(trials[0].name, "collides/dup");
    assert_eq!(trials[1].name, "collides/dup");
    assert_eq!(trials[0].runnable, 1);
    assert_eq!(trials[1].runnable, 2);
}
