use vstd::prelude::*;
use vstd::string::StringExecFns;
use crate::error::FetchError;

verus! {

/// How one launched task ended: it either ran to completion and produced a
/// typed outcome, or the unit of work itself terminated abnormally.
pub enum TaskResolution<T> {
    Completed(Result<T, FetchError>),
    Crashed,
}

/// The aggregate tally over all launched tasks.
pub struct Report {
    pub success_count: usize,
    pub error_count: usize,
    pub crash_count: usize,
}

/// 1 if this resolution is a completed success, else 0.
pub open spec fn success_weight<T>(x: TaskResolution<T>) -> nat {
    if x matches TaskResolution::Completed(res) && res is Ok {
        1
    } else {
        0
    }
}

/// 1 if this resolution is a completed typed failure, else 0.
pub open spec fn error_weight<T>(x: TaskResolution<T>) -> nat {
    if x matches TaskResolution::Completed(res) && res is Err {
        1
    } else {
        0
    }
}

/// 1 if this resolution is an abnormal termination, else 0.
pub open spec fn crash_weight<T>(x: TaskResolution<T>) -> nat {
    if x is Crashed {
        1
    } else {
        0
    }
}

/// How many resolutions in the sequence are completed successes.
pub open spec fn count_successes<T>(s: Seq<TaskResolution<T>>) -> nat
    decreases s.len(),
{
    if s.len() == 0 {
        0
    } else {
        count_successes(s.drop_last()) + success_weight(s.last())
    }
}

/// How many resolutions in the sequence are completed typed failures.
pub open spec fn count_errors<T>(s: Seq<TaskResolution<T>>) -> nat
    decreases s.len(),
{
    if s.len() == 0 {
        0
    } else {
        count_errors(s.drop_last()) + error_weight(s.last())
    }
}

/// How many resolutions in the sequence are abnormal terminations.
pub open spec fn count_crashes<T>(s: Seq<TaskResolution<T>>) -> nat
    decreases s.len(),
{
    if s.len() == 0 {
        0
    } else {
        count_crashes(s.drop_last()) + crash_weight(s.last())
    }
}

/// Every task's resolution falls in exactly one bucket, so the three
/// counts always partition the collected outcomes: successes plus typed
/// failures plus crashes equals the number of tasks.
pub proof fn lemma_counts_partition<T>(s: Seq<TaskResolution<T>>)
    ensures
        count_successes(s) + count_errors(s) + count_crashes(s) == s.len(),
    decreases s.len(),
{
    if s.len() > 0 {
        lemma_counts_partition(s.drop_last());
    }
}

/// Replacing one task's resolution changes the tally only by that task's
/// own contribution: every other task is counted exactly as before. In
/// particular, one task crashing neither loses nor alters any other
/// task's entry in the report.
pub proof fn lemma_resolution_independent<T>(
    s: Seq<TaskResolution<T>>,
    i: int,
    v: TaskResolution<T>,
)
    requires
        0 <= i < s.len(),
    ensures
        count_successes(s.update(i, v)) == count_successes(s) - success_weight(s[i])
            + success_weight(v),
        count_errors(s.update(i, v)) == count_errors(s) - error_weight(s[i]) + error_weight(v),
        count_crashes(s.update(i, v)) == count_crashes(s) - crash_weight(s[i]) + crash_weight(v),
    decreases s.len(),
{
    let t = s.update(i, v);
    if i == s.len() - 1 {
        assert(t.drop_last() =~= s.drop_last());
    } else {
        lemma_resolution_independent(s.drop_last(), i, v);
        assert(t.drop_last() =~= s.drop_last().update(i, v));
    }
}

/// Tallies the final report from every collected resolution. Each
/// resolution is counted exactly once, in its own bucket, and the three
/// counters partition the input.
pub fn tally<T>(results: &Vec<TaskResolution<T>>) -> (r: Report)
    ensures
        r.success_count == count_successes(results@),
        r.error_count == count_errors(results@),
        r.crash_count == count_crashes(results@),
        r.success_count + r.error_count + r.crash_count == results@.len(),
{
    let mut success_count: usize = 0;
    let mut error_count: usize = 0;
    let mut crash_count: usize = 0;
    let n = results.len();
    let mut i: usize = 0;
    while i < n
        invariant
            i <= n,
            n == results@.len(),
            success_count == count_successes(results@.subrange(0, i as int)),
            error_count == count_errors(results@.subrange(0, i as int)),
            crash_count == count_crashes(results@.subrange(0, i as int)),
            success_count + error_count + crash_count == i,
        decreases n - i,
    {
        proof {
            let pre = results@.subrange(0, i as int);
            let post = results@.subrange(0, i + 1);
            assert(post.drop_last() =~= pre);
            assert(post.last() == results@[i as int]);
        }
        match &results[i] {
            TaskResolution::Completed(res) => match res {
                Ok(_) => {
                    success_count = success_count + 1;
                },
                Err(_) => {
                    error_count = error_count + 1;
                },
            },
            TaskResolution::Crashed => {
                crash_count = crash_count + 1;
            },
        }
        i = i + 1;
    }
    proof {
        assert(results@.subrange(0, n as int) =~= results@);
    }
    Report { success_count, error_count, crash_count }
}

/// Builds the payload that one endpoint's task is meant to fetch.
pub fn make_payload(endpoint: &str) -> (r: String)
    ensures
        r@ == "Data from "@ + endpoint@,
{
    String::from_str("Data from ").concat(endpoint)
}

/// Builds one payload per endpoint, in launch order: the payload at each
/// position belongs to the endpoint at the same position.
pub fn plan_payloads(endpoints: &Vec<String>) -> (r: Vec<String>)
    ensures
        r@.len() == endpoints@.len(),
        forall|j: int|
            0 <= j < endpoints@.len() ==> r@[j]@ == "Data from "@ + endpoints@[j]@,
{
    let mut out: Vec<String> = Vec::new();
    let mut i: usize = 0;
    while i < endpoints.len()
        invariant
            i <= endpoints@.len(),
            out@.len() == i,
            forall|j: int| 0 <= j < i ==> out@[j]@ == "Data from "@ + endpoints@[j]@,
        decreases endpoints@.len() - i,
    {
        out.push(make_payload(endpoints[i].as_str()));
        i = i + 1;
    }
    out
}

} // verus!
