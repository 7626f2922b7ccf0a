use std::cell::Cell;

use rdroidtest::params::expand;
use rdroidtest::registry::Registry;
use rdroidtest::runner::{harness_succeeded, materialize, run_trial, run_trials, Verdict};
use rdroidtest::trial::{plain_trial, Trial};

fn alpha_factory() -> Trial<u32> {
    plain_trial("alpha".to_string(), 1, false, None)
}

fn beta_factory() -> Trial<u32> {
    plain_trial("beta".to_string(), 2, true, None)
}

fn gamma_factory() -> Vec<Trial<u32>> {
    let instances = vec![("one".to_string(), 3u32), ("two".to_string(), 4u32)];
    expand("gamma", instances, false)
}

fn build_registry() -> Registry<fn() -> Trial<u32>, fn() -> Vec<Trial<u32>>> {
    let mut registry = Registry::new();
    registry.register(alpha_factory as fn() -> Trial<u32>);
    registry.register(beta_factory as fn() -> Trial<u32>);
    registry.register_parameterized(gamma_factory as fn() -> Vec<Trial<u32>>);
    registry
}

#[test]
fn materialization_is_flat_and_in_registration_order() {
    let trials = materialize(build_registry());
    let names: Vec<&str> = trials.iter().map(|t| t.name.as_str()).collect();
    assert_eq!(names, vec!["alpha", "beta", "gamma/one", "gamma/two"]);
    assert!(trials[1].ignored);
    assert!(!trials[0].ignored);
}

#[test]
fn repeated_materialization_is_deterministic() {
    let first: Vec<String> = materialize(build_registry()).into_iter().map(|t| t.name).collect();
    let second: Vec<String> = materialize(build_registry()).into_iter().map(|t| t.name).collect();
    assert_eq!(first, second);
}

#[test]
fn verdicts_normalize_outcomes() {
    let passed = run_trial(7u32, |_v: u32| -> Result<(), String> { Ok(()) });
    assert!(matches!(passed, Verdict::Passed));
    let failed = run_trial(7u32, |_v: u32| -> Result<(), String> {
        Err("assertion failed".to_string())
    });
    match failed {
        Verdict::Failed(reason) => assert_eq!(reason, "assertion failed"),
        Verdict::Passed => panic!("expected a failure"),
    }
}

#[test]
fn one_failing_body_leaves_other_verdicts_intact() {
    let executed = Cell::new(0u32);
    let trials = vec![
        plain_trial("first".to_string(), 1u32, false, None),
        plain_trial("boom".to_string(), 2u32, false, None),
        plain_trial("skipped".to_string(), 3u32, true, None),
        plain_trial("last".to_string(), 4u32, false, None),
    ];
    let reports = run_trials(trials, |v: u32| -> Result<(), String> {
        executed.set(executed.get() + 1);
        if v == 2 {
            Err("boom".to_string())
        } else {
            Ok(())
        }
    });
    assert_eq!(reports.len(), 4);
    assert_eq!(reports[0].name, "first");
    assert!(matches!(reports[0].verdict, Some(Verdict::Passed)));
    assert!(matches!(reports[1].verdict, Some(Verdict::Failed(_))));
    assert!(reports[2].ignored);
    assert!(reports[2].verdict.is_none());
    assert!(matches!(reports[3].verdict, Some(Verdict::Passed)));
    // the ignored trial was never executed
    assert_eq!(executed.get(), 3);
}

#[test]
fn exit_status_reflects_failures() {
    let trials = vec![plain_trial("ok".to_string(), 1u32, false, None)];
    let reports = run_trials(trials, |_v: u32| -> Result<(), String> { Ok(()) });
    assert!(harness_succeeded(&reports));

    let trials = vec![
        plain_trial("ok".to_string(), 1u32, false, None),
        plain_trial("bad".to_string(), 2u32, false, None),
    ];
    let reports = run_trials(trials, |v: u32| -> Result<(), String> {
        if v == 2 {
            Err("bad".to_string())
        } else {
            Ok(())
        }
    });
    assert!(!harness_succeeded(&reports));
}

#[test]
fn ignored_trials_cannot_fail_the_run() {
    let trials = vec![plain_trial("bad_but_skipped".to_string(), 2u32, true, None)];
    let reports = run_trials(trials, |_v: u32| -> Result<(), String> {
        Err("never run".to_string())
    });
    assert!(harness_succeeded(&reports));
}

#[test]
fn handoff_to_front_end_keeps_name_and_ignore_flag() {
    let trial = plain_trial("edge::case".to_string(), 5u32, true, None);
    let value = trial.runnable;
    let handle = libtest_mimic::Trial::test(trial.name, move || {
        let _ = value;
        Ok(())
    })
    .with_ignored_flag(trial.ignored);
    assert_eq!(handle.name(), "edge::case");
}
