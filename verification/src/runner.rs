//! The harness entry point and the execution loop.
//!
//! Materialization invokes every registered factory exactly once, plain
//! factories first, each group in registration order, and concatenates what
//! they produce into one flat trial collection.  The execution loop then
//! yields one verdict per trial, each computed from that trial's own outcome
//! alone; an ignored trial is reported as such and not executed.

use vstd::prelude::*;
use crate::registry::Registry;
use crate::trial::Trial;

verus! {

/// What a run of the plain factories `factories` may have produced: one trial
/// per factory, in factory order, each a possible result of its own factory.
pub open spec fn plain_outputs<R, P: Fn() -> Trial<R>>(
    factories: Seq<P>,
    produced: Seq<Trial<R>>,
) -> bool {
    &&& produced.len() == factories.len()
    &&& forall|i: int|
        0 <= i < factories.len() ==> #[trigger] call_ensures(factories[i], (), produced[i])
}

/// Whether `out` is a possible output of the parameterized factory `f`.
pub open spec fn factory_produced<R, Q: Fn() -> Vec<Trial<R>>>(f: Q, out: Seq<Trial<R>>) -> bool {
    exists|v: Vec<Trial<R>>| #[trigger] call_ensures(f, (), v) && v@ == out
}

/// What a run of the parameterized factories `factories` may have produced:
/// one trial sequence per factory, in factory order, each a possible result
/// of its own factory.
pub open spec fn parameterized_outputs<R, Q: Fn() -> Vec<Trial<R>>>(
    factories: Seq<Q>,
    produced: Seq<Seq<Trial<R>>>,
) -> bool {
    &&& produced.len() == factories.len()
    &&& forall|i: int|
        0 <= i < factories.len() ==> #[trigger] factory_produced(factories[i], produced[i])
}

/// The harness entry step: invokes every factory in the registry once and
/// returns the flat trial collection, the plain factories' trials first, then
/// the parameterized factories' trial sequences concatenated, both in
/// registration order.  Nothing is reordered, deduplicated or dropped, so
/// equally built registries whose factories produce the same outputs yield
/// the same trials in the same order.
pub fn materialize<R, P: Fn() -> Trial<R>, Q: Fn() -> Vec<Trial<R>>>(
    registry: Registry<P, Q>,
) -> (trials: Vec<Trial<R>>)
    requires
        forall|i: int|
            0 <= i < registry.plain_factories().len() ==> call_requires(
                #[trigger] registry.plain_factories()[i],
                (),
            ),
        forall|i: int|
            0 <= i < registry.parameterized_factories().len() ==> call_requires(
                #[trigger] registry.parameterized_factories()[i],
                (),
            ),
    ensures
        exists|single: Seq<Trial<R>>, multi: Seq<Seq<Trial<R>>>|
            {
                &&& #[trigger] plain_outputs(registry.plain_factories(), single)
                &&& #[trigger] parameterized_outputs(registry.parameterized_factories(), multi)
                &&& trials@ == single + multi.flatten()
            },
{
    let ghost pfs = registry.plain_factories();
    let ghost qfs = registry.parameterized_factories();
    let pair = registry.take_factories();
    let mut plain = pair.0;
    let mut parameterized = pair.1;
    let mut trials: Vec<Trial<R>> = Vec::new();

    while plain.len() != 0
        invariant
            forall|i: int| 0 <= i < pfs.len() ==> call_requires(#[trigger] pfs[i], ()),
            trials@.len() + plain@.len() == pfs.len(),
            plain@ == pfs.skip(trials@.len() as int),
            forall|i: int|
                0 <= i < trials@.len() ==> #[trigger] call_ensures(pfs[i], (), trials@[i]),
        decreases plain@.len(),
    {
        proof {
            assert(plain@[0] == pfs[trials@.len() as int]);
        }
        let factory = plain.remove(0);
        let t = factory();
        trials.push(t);
        proof {
            assert(plain@ =~= pfs.skip(trials@.len() as int));
        }
    }
    let ghost single: Seq<Trial<R>> = trials@;
    let ghost mut multi: Seq<Seq<Trial<R>>> = Seq::empty();
    proof {
        assert(plain_outputs(pfs, single));
        assert(trials@ =~= single + multi.flatten());
    }

    while parameterized.len() != 0
        invariant
            forall|i: int| 0 <= i < qfs.len() ==> call_requires(#[trigger] qfs[i], ()),
            multi.len() + parameterized@.len() == qfs.len(),
            parameterized@ == qfs.skip(multi.len() as int),
            forall|i: int|
                0 <= i < multi.len() ==> #[trigger] factory_produced(qfs[i], multi[i]),
            trials@ == single + multi.flatten(),
        decreases parameterized@.len(),
    {
        proof {
            assert(parameterized@[0] == qfs[multi.len() as int]);
        }
        let factory = parameterized.remove(0);
        let mut produced = factory();
        let ghost produced_snapshot: Vec<Trial<R>> = produced;
        let ghost before: Seq<Seq<Trial<R>>> = multi;
        trials.append(&mut produced);
        proof {
            before.lemma_flatten_push(produced_snapshot@);
            multi = before.push(produced_snapshot@);
            assert(call_ensures(qfs[before.len() as int], (), produced_snapshot)
                && produced_snapshot@ == multi[before.len() as int]);
            assert(factory_produced(qfs[before.len() as int], multi[before.len() as int]));
            assert(parameterized@ =~= qfs.skip(multi.len() as int));
            assert(trials@ =~= single + multi.flatten());
        }
    }
    proof {
        assert(parameterized_outputs(qfs, multi));
    }
    trials
}

/// Registration and materialization are deterministic: the entry point makes
/// no ordering or selection choices of its own, so when every factory's
/// contract pins its output — as it does for factories built from fixed
/// declaration data — two materializations of equally built registries can
/// only produce one and the same flat trial sequence.
pub proof fn lemma_materialization_deterministic<
    R,
    P: Fn() -> Trial<R>,
    Q: Fn() -> Vec<Trial<R>>,
>(
    plain: Seq<P>,
    parameterized: Seq<Q>,
    single1: Seq<Trial<R>>,
    multi1: Seq<Seq<Trial<R>>>,
    single2: Seq<Trial<R>>,
    multi2: Seq<Seq<Trial<R>>>,
)
    requires
        plain_outputs(plain, single1),
        plain_outputs(plain, single2),
        parameterized_outputs(parameterized, multi1),
        parameterized_outputs(parameterized, multi2),
        forall|i: int, t1: Trial<R>, t2: Trial<R>|
            0 <= i < plain.len() && #[trigger] call_ensures(plain[i], (), t1)
                && #[trigger] call_ensures(plain[i], (), t2) ==> t1 == t2,
        forall|i: int, v1: Vec<Trial<R>>, v2: Vec<Trial<R>>|
            0 <= i < parameterized.len() && #[trigger] call_ensures(parameterized[i], (), v1)
                && #[trigger] call_ensures(parameterized[i], (), v2) ==> v1@ == v2@,
    ensures
        single1 + multi1.flatten() == single2 + multi2.flatten(),
{
    assert forall|i: int| 0 <= i < plain.len() implies single1[i] == single2[i] by {
        assert(call_ensures(plain[i], (), single1[i]));
        assert(call_ensures(plain[i], (), single2[i]));
    }
    assert(single1 =~= single2);
    assert forall|i: int| 0 <= i < parameterized.len() implies multi1[i] == multi2[i] by {
        assert(factory_produced(parameterized[i], multi1[i]));
        assert(factory_produced(parameterized[i], multi2[i]));
        let v1 = choose|v: Vec<Trial<R>>| call_ensures(parameterized[i], (), v) && v@ == multi1[i];
        let v2 = choose|v: Vec<Trial<R>>| call_ensures(parameterized[i], (), v) && v@ == multi2[i];
        assert(v1@ == v2@);
    }
    assert(multi1 =~= multi2);
}

/// The result of executing one trial body: either it completed, or it
/// signalled failure, with the reason.  An uncontrolled abort inside a body is
/// expected to be intercepted by the caller's isolation boundary and handed in
/// as a failure outcome, so both failure shapes collapse into `Failed`.
pub enum Verdict {
    Passed,
    Failed(String),
}

/// The verdict that a body outcome normalizes to.
pub open spec fn verdict_of(outcome: Result<(), String>) -> Verdict {
    match outcome {
        Result::Ok(_) => Verdict::Passed,
        Result::Err(reason) => Verdict::Failed(reason),
    }
}

/// The execution wrapper for one trial: invokes the body exactly once through
/// `execute` and always returns a verdict, which is a function of that one
/// outcome alone.  `execute` is the harness's isolation boundary around the
/// user body: it reports an uncontrolled abort as an `Err` outcome instead of
/// propagating it.
pub fn run_trial<R, E: Fn(R) -> Result<(), String>>(runnable: R, execute: E) -> (v: Verdict)
    requires
        call_requires(execute, (runnable,)),
    ensures
        exists|outcome: Result<(), String>|
            #[trigger] call_ensures(execute, (runnable,), outcome) && v == verdict_of(outcome),
{
    let outcome = execute(runnable);
    match outcome {
        Result::Ok(()) => Verdict::Passed,
        Result::Err(reason) => Verdict::Failed(reason),
    }
}

/// What is reported for one trial: its name, whether it was ignored, and, for
/// a trial that ran, its verdict.  `verdict` is `None` exactly for ignored
/// trials, which are never executed.
pub struct TrialReport {
    pub name: String,
    pub ignored: bool,
    pub verdict: Option<Verdict>,
}

/// Runs a flat trial collection in order: every non-ignored trial is executed
/// exactly once through `execute` and its verdict is computed from its own
/// outcome alone, so a failing body affects no other trial's report; ignored
/// trials are reported without being executed.
pub fn run_trials<R, E: Fn(R) -> Result<(), String>>(trials: Vec<Trial<R>>, execute: E) -> (reports:
    Vec<TrialReport>)
    requires
        forall|i: int|
            0 <= i < trials@.len() ==> call_requires(
                execute,
                ((#[trigger] trials@[i]).runnable,),
            ),
    ensures
        reports@.len() == trials@.len(),
        forall|i: int|
            0 <= i < trials@.len() ==> {
                &&& (#[trigger] reports@[i]).name == trials@[i].name
                &&& reports@[i].ignored == trials@[i].ignored
                &&& (trials@[i].ignored ==> reports@[i].verdict is None)
                &&& (!trials@[i].ignored ==> exists|outcome: Result<(), String>|
                    #[trigger] call_ensures(execute, (trials@[i].runnable,), outcome)
                        && reports@[i].verdict == Some(verdict_of(outcome)))
            },
{
    let ghost orig: Seq<Trial<R>> = trials@;
    let mut rest = trials;
    let mut reports: Vec<TrialReport> = Vec::new();
    while rest.len() != 0
        invariant
            forall|i: int|
                0 <= i < orig.len() ==> call_requires(execute, ((#[trigger] orig[i]).runnable,)),
            reports@.len() + rest@.len() == orig.len(),
            rest@ == orig.skip(reports@.len() as int),
            forall|i: int|
                0 <= i < reports@.len() ==> {
                    &&& (#[trigger] reports@[i]).name == orig[i].name
                    &&& reports@[i].ignored == orig[i].ignored
                    &&& (orig[i].ignored ==> reports@[i].verdict is None)
                    &&& (!orig[i].ignored ==> exists|outcome: Result<(), String>|
                        #[trigger] call_ensures(execute, (orig[i].runnable,), outcome)
                            && reports@[i].verdict == Some(verdict_of(outcome)))
                },
        decreases rest@.len(),
    {
        proof {
            assert(rest@[0] == orig[reports@.len() as int]);
        }
        let trial = rest.remove(0);
        let Trial { name, ignored, runnable } = trial;
        if ignored {
            reports.push(TrialReport { name, ignored: true, verdict: None });
        } else {
            let outcome = execute(runnable);
            let verdict = match outcome {
                Result::Ok(()) => Verdict::Passed,
                Result::Err(reason) => Verdict::Failed(reason),
            };
            reports.push(TrialReport { name, ignored: false, verdict: Some(verdict) });
        }
        proof {
            assert(rest@ =~= orig.skip(reports@.len() as int));
        }
    }
    reports
}

/// Whether a report records a failed trial.
pub open spec fn report_failed(r: TrialReport) -> bool {
    r.verdict matches Some(Verdict::Failed(_))
}

/// The aggregate outcome a front end turns into the process exit status: true
/// exactly when no trial that ran has failed.  Ignored trials never count as
/// failures.
pub fn harness_succeeded(reports: &Vec<TrialReport>) -> (ok: bool)
    ensures
        ok == (forall|i: int| 0 <= i < reports@.len() ==> !report_failed(#[trigger] reports@[i])),
{
    let mut idx: usize = 0;
    while idx < reports.len()
        invariant
            idx <= reports@.len(),
            forall|i: int| 0 <= i < idx ==> !report_failed(#[trigger] reports@[i]),
        decreases reports@.len() - idx,
    {
        let failed = match &reports[idx].verdict {
            Option::Some(Verdict::Failed(_)) => true,
            _ => false,
        };
        if failed {
            proof {
                assert(report_failed(reports@[idx as int]));
            }
            return false;
        }
        idx += 1;
    }
    true
}

} // verus!
