//! Properties that hold of every batch, proved from the contracts of the
//! dispatcher and of `run_batch`.
use vstd::prelude::*;
use crate::config::RequestSpec;
use crate::dispatcher::{running_count, DispatchState};
use crate::driver::{executed_outcome, run_outcomes};
use crate::outcome::{outcome_of, RequestError, RequestOutcome};
use crate::report::indexed_exactly;

verus! {

/// A report indexed exactly by `0..n` holds `n` outcomes whose request indices
/// are pairwise distinct and cover every index below `n`.
pub proof fn law_report_covers_each_index_once(outcomes: Seq<RequestOutcome>, n: nat)
    requires
        indexed_exactly(outcomes, n),
    ensures
        outcomes.len() == n,
        forall|i: int, j: int|
            0 <= i < n && 0 <= j < n && i != j ==> (#[trigger] outcomes[i]).spec_index() != (
            #[trigger] outcomes[j]).spec_index(),
        outcomes.map_values(|o: RequestOutcome| o.spec_index() as int).to_set() == Set::new(
            |k: int| 0 <= k < n,
        ),
{
    let indices = outcomes.map_values(|o: RequestOutcome| o.spec_index() as int);
    assert forall|k: int| #[trigger] indices.to_set().contains(k) <==> 0 <= k < n by {
        if 0 <= k < n {
            assert(indices[k] == k);
        }
    }
    assert(indices.to_set() =~= Set::new(|k: int| 0 <= k < n));
}

/// When every execution succeeds, every request of a run that met no deadline
/// is reported as a success.
pub proof fn law_all_succeed<F: Fn(&RequestSpec, u32) -> Result<String, RequestError>>(
    execute: F,
    spec: RequestSpec,
    concurrency: u32,
    outcomes: Seq<RequestOutcome>,
)
    requires
        forall|s: &RequestSpec, i: u32, res: Result<String, RequestError>|
            call_ensures(execute, (s, i), res) ==> res is Ok,
        run_outcomes(execute, spec, concurrency, outcomes, outcomes.len()),
    ensures
        forall|i: int| 0 <= i < outcomes.len() ==> (#[trigger] outcomes[i]) is Success,
{
    assert forall|i: int| 0 <= i < outcomes.len() implies (#[trigger] outcomes[i]) is Success by {
        assert(executed_outcome(execute, spec, concurrency, i as u32, outcomes[i]));
        let (w, res, e) = choose|w: u32, res: Result<String, RequestError>, e: u128|
                #![trigger outcome_of(i as u32, w, res, e)]
            w < concurrency && call_ensures(execute, (&spec, i as u32), res) && outcomes[i]
                == outcome_of(i as u32, w, res, e);
        assert(res is Ok);
    }
}

/// When every execution fails, every request is reported as a failure, and the
/// run still returns a report for the whole batch.
pub proof fn law_all_fail<F: Fn(&RequestSpec, u32) -> Result<String, RequestError>>(
    execute: F,
    spec: RequestSpec,
    concurrency: u32,
    outcomes: Seq<RequestOutcome>,
    ran: nat,
)
    requires
        forall|s: &RequestSpec, i: u32, res: Result<String, RequestError>|
            call_ensures(execute, (s, i), res) ==> res is Err,
        run_outcomes(execute, spec, concurrency, outcomes, ran),
    ensures
        forall|i: int| 0 <= i < outcomes.len() ==> (#[trigger] outcomes[i]) is Failure,
{
    assert forall|i: int| 0 <= i < outcomes.len() implies (#[trigger] outcomes[i]) is Failure by {
        if i < ran {
            assert(executed_outcome(execute, spec, concurrency, i as u32, outcomes[i]));
            let (w, res, e) = choose|w: u32, res: Result<String, RequestError>, e: u128|
                #![trigger outcome_of(i as u32, w, res, e)]
                w < concurrency && call_ensures(execute, (&spec, i as u32), res) && outcomes[i]
                    == outcome_of(i as u32, w, res, e);
            assert(res is Err);
        }
    }
}

/// When execution fails exactly on the indices divisible by three, a run that
/// met no deadline reports a failure exactly at those indices, whatever the
/// concurrency budget.
pub proof fn law_fail_on_multiples_of_three<F: Fn(&RequestSpec, u32) -> Result<String, RequestError>>(
    execute: F,
    spec: RequestSpec,
    concurrency: u32,
    outcomes: Seq<RequestOutcome>,
)
    requires
        forall|s: &RequestSpec, i: u32, res: Result<String, RequestError>|
            call_ensures(execute, (s, i), res) ==> (res is Err <==> i % 3 == 0),
        outcomes.len() <= u32::MAX,
        run_outcomes(execute, spec, concurrency, outcomes, outcomes.len()),
    ensures
        forall|i: int|
            0 <= i < outcomes.len() ==> ((#[trigger] outcomes[i]) is Failure <==> i % 3 == 0),
{
    assert forall|i: int| 0 <= i < outcomes.len() implies ((#[trigger] outcomes[i]) is Failure <==> i
        % 3 == 0) by {
        assert(executed_outcome(execute, spec, concurrency, i as u32, outcomes[i]));
        let (w, res, e) = choose|w: u32, res: Result<String, RequestError>, e: u128|
                #![trigger outcome_of(i as u32, w, res, e)]
            w < concurrency && call_ensures(execute, (&spec, i as u32), res) && outcomes[i]
                == outcome_of(i as u32, w, res, e);
        assert(res is Err <==> (i as u32) % 3 == 0);
    }
}

/// In every well-formed state of a dispatcher, the requests in flight number
/// no more than the concurrency budget.
pub proof fn law_in_flight_within_budget(state: DispatchState)
    requires
        state.wf(),
    ensures
        running_count(state.slots) == state.in_flight,
        running_count(state.slots) <= state.concurrency,
{
}

} // verus!
