//! Core of a test harness that decides at runtime which tests to skip.
//!
//! Test declarations register *trial factories* in a [`registry::Registry`];
//! invoking every factory once materializes the flat set of [`trial::Trial`]s,
//! each with a display name and an ignore decision fixed at that moment.  A
//! plain test yields exactly one trial; a parameterized test yields one trial
//! per generator instance, named `<test>/<label>`.  The runner then executes
//! every non-ignored trial under failure isolation and reports a verdict per
//! trial.

pub mod params;
pub mod registry;
pub mod runner;
pub mod trial;
