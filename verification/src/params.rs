//! Expansion of a parameterized test into independent trials: one trial per
//! generator instance, named `<test>/<label>`, in generator order, each with
//! its own ignore decision.

use vstd::prelude::*;
use vstd::string::StringExecFns;
use crate::trial::Trial;

verus! {

/// The display name of one instance of a parameterized test.
pub open spec fn instance_name(id: Seq<char>, label: Seq<char>) -> Seq<char> {
    id + "/"@ + label
}

/// Builds `<id>/<label>`.
fn build_instance_name(id: &str, label: &str) -> (s: String)
    ensures
        s@ == instance_name(id@, label@),
{
    let mut s = String::from_str(id);
    s.append("/");
    s.append(label);
    s
}

/// Materializes the trials of a parameterized test that declared no ignore
/// predicate: one trial per `(label, value)` instance, in instance order,
/// named `<id>/<label>` and carrying the instance value; every trial's ignore
/// flag is the test's always-ignore marker.  An empty instance list yields no
/// trials; duplicate labels yield duplicate names, none is dropped.
pub fn expand<T>(id: &str, instances: Vec<(String, T)>, always_ignore: bool) -> (trials: Vec<
    Trial<T>,
>)
    ensures
        trials@.len() == instances@.len(),
        forall|i: int|
            0 <= i < instances@.len() ==> {
                &&& (#[trigger] trials@[i]).name@ == instance_name(id@, instances@[i].0@)
                &&& trials@[i].runnable == instances@[i].1
                &&& trials@[i].ignored == always_ignore
            },
{
    let ghost orig: Seq<(String, T)> = instances@;
    let mut rest = instances;
    let mut trials: Vec<Trial<T>> = Vec::new();
    while rest.len() != 0
        invariant
            trials@.len() + rest@.len() == orig.len(),
            rest@ == orig.skip(trials@.len() as int),
            forall|i: int|
                0 <= i < trials@.len() ==> {
                    &&& (#[trigger] trials@[i]).name@ == instance_name(id@, orig[i].0@)
                    &&& trials@[i].runnable == orig[i].1
                    &&& trials@[i].ignored == always_ignore
                },
        decreases rest@.len(),
    {
        proof {
            assert(rest@[0] == orig[trials@.len() as int]);
        }
        let instance = rest.remove(0);
        let name = build_instance_name(id, instance.0.as_str());
        trials.push(Trial { name, ignored: always_ignore, runnable: instance.1 });
        proof {
            assert(rest@ =~= orig.skip(trials@.len() as int));
        }
    }
    trials
}

/// Duplicate instance labels produce duplicate trial names, and both trials
/// are present: any expansion with the name and count guarantees of
/// [`expand`] or [`expand_ignore_if`] keeps one trial per instance, so a
/// label collision surfaces as a name collision downstream instead of being
/// silently merged here.
pub proof fn lemma_duplicate_labels_collide<T>(
    id: Seq<char>,
    instances: Seq<(String, T)>,
    trials: Seq<Trial<T>>,
    i: int,
    j: int,
)
    requires
        trials.len() == instances.len(),
        forall|k: int|
            0 <= k < instances.len() ==> (#[trigger] trials[k]).name@ == instance_name(
                id,
                instances[k].0@,
            ),
        0 <= i < instances.len(),
        0 <= j < instances.len(),
        instances[i].0@ == instances[j].0@,
    ensures
        trials[i].name@ == trials[j].name@,
{
}

/// Materializes the trials of a parameterized test that declared an ignore
/// predicate.  Names, order and carried values are as in [`expand`].  With an
/// always-ignore marker every trial is ignored and the predicate is not
/// consulted; otherwise each trial's flag is the predicate applied to that
/// trial's own instance value, so distinct instances are ignored
/// independently.
pub fn expand_ignore_if<T, F: Fn(&T) -> bool>(
    id: &str,
    instances: Vec<(String, T)>,
    always_ignore: bool,
    predicate: F,
) -> (trials: Vec<Trial<T>>)
    requires
        forall|v: T| #[trigger] call_requires(predicate, (&v,)),
    ensures
        trials@.len() == instances@.len(),
        forall|i: int|
            0 <= i < instances@.len() ==> {
                &&& (#[trigger] trials@[i]).name@ == instance_name(id@, instances@[i].0@)
                &&& trials@[i].runnable == instances@[i].1
            },
        always_ignore ==> forall|i: int|
            0 <= i < trials@.len() ==> (#[trigger] trials@[i]).ignored,
        !always_ignore ==> forall|i: int|
            0 <= i < trials@.len() ==> call_ensures(
                predicate,
                (&instances@[i].1,),
                (#[trigger] trials@[i]).ignored,
            ),
{
    let ghost orig: Seq<(String, T)> = instances@;
    let mut rest = instances;
    let mut trials: Vec<Trial<T>> = Vec::new();
    while rest.len() != 0
        invariant
            forall|v: T| #[trigger] call_requires(predicate, (&v,)),
            trials@.len() + rest@.len() == orig.len(),
            rest@ == orig.skip(trials@.len() as int),
            forall|i: int|
                0 <= i < trials@.len() ==> {
                    &&& (#[trigger] trials@[i]).name@ == instance_name(id@, orig[i].0@)
                    &&& trials@[i].runnable == orig[i].1
                },
            always_ignore ==> forall|i: int|
                0 <= i < trials@.len() ==> (#[trigger] trials@[i]).ignored,
            !always_ignore ==> forall|i: int|
                0 <= i < trials@.len() ==> call_ensures(
                    predicate,
                    (&orig[i].1,),
                    (#[trigger] trials@[i]).ignored,
                ),
        decreases rest@.len(),
    {
        proof {
            assert(rest@[0] == orig[trials@.len() as int]);
        }
        let instance = rest.remove(0);
        let name = build_instance_name(id, instance.0.as_str());
        let ignored = if always_ignore {
            true
        } else {
            predicate(&instance.1)
        };
        trials.push(Trial { name, ignored, runnable: instance.1 });
        proof {
            assert(rest@ =~= orig.skip(trials@.len() as int));
        }
    }
    trials
}

} // verus!
