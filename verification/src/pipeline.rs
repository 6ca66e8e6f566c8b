//! Decision logic of the two pipelines: the fixed-order join of the
//! concurrent-fetch pipeline, and the scan-and-sum aggregation of the
//! fetch-and-analyze pipeline.
//!
//! Both are generic in the error type, so the driver's own error values
//! pass through unchanged. The driver spawns the tasks and awaits them;
//! the functions here take the collected outcomes and decide.

use vstd::prelude::*;

verus! {

/// The kinds of failure the pipelines surface: a scheduling or join
/// failure of the substrate, a failed network fetch, or a response
/// body that is not valid text.
#[derive(Clone, Copy, Debug, PartialEq, Eq, Structural)]
pub enum FailureKind {
    Substrate,
    Network,
    Decode,
}

/// Join two concurrently started operations in a fixed order: the
/// first operation's failure is the pipeline's outcome no matter how
/// the second fared; only when the first succeeded is the second's
/// outcome surfaced. Success requires both to have succeeded.
pub fn sequential_join<E>(first: Result<(), E>, second: Result<(), E>) -> (r: Result<(), E>)
    ensures
        first matches Err(e) ==> (r matches Err(re) && re == e),
        first is Ok ==> r == second,
{
    match first {
        Err(e) => Err(e),
        Ok(()) => second,
    }
}

/// Index of the first failed outcome, or the sequence's length if
/// every outcome succeeded.
pub open spec fn first_failure<E>(s: Seq<Result<(u64, u64), E>>) -> int
    decreases s.len(),
{
    if s.len() == 0 {
        0
    } else if s[0] is Err {
        0
    } else {
        1 + first_failure(s.drop_first())
    }
}

/// Sum of the first counter over the outcomes before the first failure.
pub open spec fn ones_total<E>(s: Seq<Result<(u64, u64), E>>) -> int
    decreases s.len(),
{
    if s.len() == 0 {
        0
    } else {
        match s[0] {
            Ok(p) => p.0 + ones_total(s.drop_first()),
            Err(_) => 0,
        }
    }
}

/// Sum of the second counter over the outcomes before the first failure.
pub open spec fn zeros_total<E>(s: Seq<Result<(u64, u64), E>>) -> int
    decreases s.len(),
{
    if s.len() == 0 {
        0
    } else {
        match s[0] {
            Ok(p) => p.1 + zeros_total(s.drop_first()),
            Err(_) => 0,
        }
    }
}

proof fn lemma_first_failure_bounds<E>(s: Seq<Result<(u64, u64), E>>)
    ensures
        0 <= first_failure(s) <= s.len(),
        first_failure(s) < s.len() ==> s[first_failure(s)] is Err,
        first_failure(s) == s.len() ==> forall|i: int| 0 <= i < s.len() ==> s[i] is Ok,
    decreases s.len(),
{
    if s.len() > 0 && s[0] is Ok {
        lemma_first_failure_bounds(s.drop_first());
        if first_failure(s) == s.len() {
            assert forall|i: int| 0 <= i < s.len() implies s[i] is Ok by {
                if i > 0 {
                    assert(s.drop_first()[i - 1] == s[i]);
                }
            }
        }
    }
}

proof fn lemma_totals_nonneg<E>(s: Seq<Result<(u64, u64), E>>)
    ensures
        ones_total(s) >= 0,
        zeros_total(s) >= 0,
    decreases s.len(),
{
    if s.len() > 0 && s[0] is Ok {
        lemma_totals_nonneg(s.drop_first());
    }
}

/// Scan the chains' outcomes in order and aggregate. On the first
/// failure encountered the pipeline fails with exactly that error,
/// and nothing is summed past it; if every chain succeeded, the two
/// counters are summed over all of them.
#[verifier::loop_isolation(false)]
pub fn aggregate_outcomes<E>(outcomes: Vec<Result<(u64, u64), E>>) -> (r: Result<(u64, u64), E>)
    requires
        ones_total(outcomes@) <= u64::MAX,
        zeros_total(outcomes@) <= u64::MAX,
    ensures
        first_failure(outcomes@) == outcomes@.len() ==> (r matches Ok(totals) && totals.0 as int
            == ones_total(outcomes@) && totals.1 as int == zeros_total(outcomes@)),
        first_failure(outcomes@) < outcomes@.len() ==> (r is Err && r == outcomes@[first_failure(
            outcomes@,
        )]),
{
    let ghost orig = outcomes@;
    let mut rest = outcomes;
    let mut total_ones: u64 = 0;
    let mut total_zeros: u64 = 0;
    let ghost mut done: int = 0;
    proof {
        lemma_first_failure_bounds(orig);
    }
    while rest.len() > 0
        invariant
            0 <= done <= orig.len(),
            rest@ =~= orig.subrange(done, orig.len() as int),
            first_failure(orig) >= done,
            first_failure(orig) == done + first_failure(rest@),
            ones_total(orig) == total_ones + ones_total(rest@),
            zeros_total(orig) == total_zeros + zeros_total(rest@),
            ones_total(orig) <= u64::MAX,
            zeros_total(orig) <= u64::MAX,
        decreases rest@.len(),
    {
        proof {
            lemma_totals_nonneg(rest@.drop_first());
        }
        let ghost prev = rest@;
        let head = rest.remove(0);
        proof {
            assert(rest@ =~= prev.drop_first());
            assert(head == prev[0]);
        }
        match head {
            Err(e) => {
                proof {
                    assert(first_failure(orig) == done);
                    assert(orig[done] == Err::<(u64, u64), E>(e));
                }
                return Err(e);
            },
            Ok(p) => {
                total_ones = total_ones + p.0;
                total_zeros = total_zeros + p.1;
                proof {
                    lemma_first_failure_bounds(rest@);
                    done = done + 1;
                }
            },
        }
    }
    proof {
        lemma_first_failure_bounds(orig);
    }
    Ok((total_ones, total_zeros))
}

} // verus!
