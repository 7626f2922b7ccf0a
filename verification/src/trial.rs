//! The trial model: a runnable unit with a display name and an ignore
//! decision that is computed once, when the trial is materialized, and never
//! re-evaluated.

use vstd::prelude::*;
use vstd::string::{StrSliceExecFns, StringExecFns};

verus! {

/// One runnable test unit.  `runnable` is whatever the surrounding harness
/// needs to execute the trial later (for a parameterized test, typically the
/// instance value); the core only carries it, it never looks inside.
pub struct Trial<R> {
    /// Display name, unique within a run unless the declaring test was given
    /// duplicate instance labels.
    pub name: String,
    /// Whether the trial is to be skipped; fixed at materialization time.
    pub ignored: bool,
    /// The unit of work the trial stands for.
    pub runnable: R,
}

/// The ignore decision for a trial: an explicit always-ignore marker wins over
/// any ignore predicate, whatever the predicate evaluated to; without a marker
/// the decision is exactly the predicate's evaluation; without either, the
/// trial runs.
pub open spec fn ignore_flag(always_ignore: bool, predicate: Option<bool>) -> bool {
    always_ignore || predicate == Some(true)
}

/// Materializes the single trial of a plain test.
///
/// `predicate` is the evaluated result of the test's ignore predicate, or
/// `None` when the test declared none; the predicate is a caller-side
/// expression, evaluated exactly once, before any trial runs.
pub fn plain_trial<R>(name: String, runnable: R, always_ignore: bool, predicate: Option<bool>) -> (t:
    Trial<R>)
    ensures
        t.name == name,
        t.ignored == ignore_flag(always_ignore, predicate),
        t.runnable == runnable,
{
    let from_predicate = match predicate {
        Option::Some(b) => b,
        Option::None => false,
    };
    Trial { name, ignored: always_ignore || from_predicate, runnable }
}

/// Whether the path separator `::` stands at position `i` of `s`.
pub open spec fn sep_at(s: Seq<char>, i: int) -> bool {
    0 <= i && i + 2 <= s.len() && s[i] == ':' && s[i + 1] == ':'
}

/// The position of the first `::` in `s` at or after `from`, if any.
pub open spec fn first_sep_from(s: Seq<char>, from: int) -> Option<int>
    decreases s.len() - from,
{
    if from + 2 > s.len() {
        None
    } else if sep_at(s, from) {
        Some(from)
    } else {
        first_sep_from(s, from + 1)
    }
}

/// The fully-qualified identifier of a test declared in the module at
/// `declaring_module`: the path without its leading crate-name segment, joined to
/// the test's own name with `::`; a path of a single segment (the crate root)
/// contributes nothing.
pub open spec fn qualified_name_of(declaring_module: Seq<char>, test_name: Seq<char>) -> Seq<char> {
    match first_sep_from(declaring_module, 0) {
        Some(i) => declaring_module.skip(i + 2) + "::"@ + test_name,
        None => test_name,
    }
}

proof fn lemma_first_sep_from_found(s: Seq<char>, from: int, i: int)
    requires
        0 <= from <= i,
        sep_at(s, i),
        forall|j: int| from <= j < i ==> !sep_at(s, j),
    ensures
        first_sep_from(s, from) == Some(i),
    decreases i - from,
{
    if from < i {
        lemma_first_sep_from_found(s, from + 1, i);
    }
}

proof fn lemma_first_sep_from_none(s: Seq<char>, from: int)
    requires
        0 <= from,
        forall|j: int| from <= j ==> !sep_at(s, j),
    ensures
        first_sep_from(s, from) is None,
    decreases s.len() - from,
{
    if from + 2 <= s.len() {
        lemma_first_sep_from_none(s, from + 1);
    }
}

/// Computes the fully-qualified identifier of a test from the declaring
/// module's path and the test's own name, dropping the path's leading
/// crate-name segment.
pub fn qualified_name(declaring_module: &str, test_name: &str) -> (s: String)
    ensures
        s@ == qualified_name_of(declaring_module@, test_name@),
{
    let n = declaring_module.unicode_len();
    if n >= 2 {
        let mut i: usize = 0;
        while i <= n - 2
            invariant
                n == declaring_module@.len(),
                n >= 2,
                i <= n - 1,
                forall|j: int| 0 <= j < i ==> !sep_at(declaring_module@, j),
            decreases n - i,
        {
            if declaring_module.get_char(i) == ':' && declaring_module.get_char(i + 1) == ':' {
                proof {
                    lemma_first_sep_from_found(declaring_module@, 0, i as int);
                }
                let tail = declaring_module.substring_char(i + 2, n);
                let mut out = String::from_str(tail);
                out.append("::");
                out.append(test_name);
                proof {
                    assert(declaring_module@.subrange(i + 2, n as int) =~= declaring_module@.skip(i + 2));
                }
                return out;
            }
            i += 1;
        }
    }
    proof {
        assert(forall|j: int| 0 <= j ==> !sep_at(declaring_module@, j));
        lemma_first_sep_from_none(declaring_module@, 0);
    }
    String::from_str(test_name)
}

/// An explicit always-ignore marker forces the ignore decision for the trial,
/// whatever any ignore predicate beside it evaluated to; since the decision is
/// a function of the two values alone, the order in which the two markers were
/// declared cannot matter.
pub proof fn lemma_always_ignore_wins(predicate: Option<bool>)
    ensures
        ignore_flag(true, predicate),
{
}

/// Without an always-ignore marker, the ignore decision equals the ignore
/// predicate's single evaluation, and is false when no predicate was declared.
pub proof fn lemma_predicate_decides(evaluation: bool)
    ensures
        ignore_flag(false, Some(evaluation)) == evaluation,
        !ignore_flag(false, None::<bool>),
{
}

} // verus!
