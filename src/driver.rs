//! A batch run on one thread with a cooperative schedule.
//!
//! Each round claims as many indices as the concurrency budget allows, one per
//! worker, then executes them and records their outcomes; a round never holds
//! more than the budget in flight. The dispatcher makes every decision, so a
//! threaded pool that shares it reports the same thing.
use vstd::prelude::*;
use crate::clock::millis_since;
use crate::config::{BatchConfig, ConfigError, RequestSpec};
use crate::dispatcher::{DispatchState, Dispatcher, Slot};
use crate::outcome::{is_timeout_outcome, outcome_of, RequestError, RequestOutcome};
use crate::report::{indexed_exactly, BatchReport};

verus! {

/// `o` is what worker-tagged execution of request `index` can have produced:
/// some worker below the budget ran `execute` on it and got `res`.
pub open spec fn executed_outcome<F: Fn(&RequestSpec, u32) -> Result<String, RequestError>>(
    execute: F,
    spec: RequestSpec,
    concurrency: u32,
    index: u32,
    o: RequestOutcome,
) -> bool {
    exists|worker_id: u32, res: Result<String, RequestError>, elapsed_ms: u128|
        #![trigger outcome_of(index, worker_id, res, elapsed_ms)]
        worker_id < concurrency && call_ensures(execute, (&spec, index), res) && o == outcome_of(
            index,
            worker_id,
            res,
            elapsed_ms,
        )
}

/// The outcomes of a run: the first `ran` indices were executed, and the rest
/// missed the deadline without being claimed.
pub open spec fn run_outcomes<F: Fn(&RequestSpec, u32) -> Result<String, RequestError>>(
    execute: F,
    spec: RequestSpec,
    concurrency: u32,
    outcomes: Seq<RequestOutcome>,
    ran: nat,
) -> bool {
    &&& ran <= outcomes.len()
    &&& forall|i: int|
        0 <= i < ran ==> executed_outcome(execute, spec, concurrency, i as u32, #[trigger] outcomes[i])
    &&& forall|i: int| ran <= i < outcomes.len() ==> is_timeout_outcome(#[trigger] outcomes[i], i as u32, None)
}

/// Runs `config.total_requests` executions of `spec` with at most
/// `config.concurrency` in flight, and reports every index. With a deadline,
/// no new round starts once `deadline_ms` milliseconds have passed, and the
/// indices never claimed are reported as `Timeout` failures.
pub fn run_batch<F: Fn(&RequestSpec, u32) -> Result<String, RequestError>>(
    spec: &RequestSpec,
    config: BatchConfig,
    deadline_ms: Option<u128>,
    execute: F,
) -> (r: Result<BatchReport, ConfigError>)
    requires
        forall|i: u32| i < config.total_requests ==> call_requires(execute, (spec, i)),
    ensures
        r is Err <==> config.concurrency == 0,
        r is Err ==> r == Err::<BatchReport, ConfigError>(ConfigError::ZeroConcurrency),
        r matches Ok(report) ==> {
            &&& indexed_exactly(report.outcomes@, config.total_requests as nat)
            &&& exists|ran: nat|
                run_outcomes(execute, *spec, config.concurrency, report.outcomes@, ran) && (
                deadline_ms is None ==> ran == config.total_requests)
            &&& config.total_requests == 0 ==> report.elapsed_ms == 0
        },
{
    let mut d = match Dispatcher::new(config) {
        Ok(d) => d,
        Err(e) => {
            return Err(e);
        },
    };
    let total = config.total_requests;
    let concurrency = config.concurrency;
    if total == 0 {
        let report = d.into_report(0);
        proof {
            assert(run_outcomes(execute, *spec, concurrency, report.outcomes@, 0));
        }
        return Ok(report);
    }
    let start = std::time::Instant::now();
    let ghost mut ran: nat = 0;
    loop
        invariant
            d@.wf(),
            d@.total == total,
            d@.concurrency == concurrency,
            d@.in_flight == 0,
            d@.next as nat == ran,
            forall|i: u32| i < total ==> call_requires(execute, (spec, i)),
            forall|i: int|
                0 <= i < d@.next ==> #[trigger] d@.slots[i] is Done && executed_outcome(
                    execute,
                    *spec,
                    concurrency,
                    i as u32,
                    d@.slots[i]->outcome,
                ),
        ensures
            d@.wf(),
            d@.total == total,
            d@.in_flight == 0,
            d@.next as nat == ran,
            deadline_ms is None ==> d@.next == total,
            forall|i: int|
                0 <= i < d@.next ==> #[trigger] d@.slots[i] is Done && executed_outcome(
                    execute,
                    *spec,
                    concurrency,
                    i as u32,
                    d@.slots[i]->outcome,
                ),
        decreases total - d@.next,
    {
        let first = d.next_index();
        let ghost before: DispatchState = d@;
        // Claim one index per worker while the budget and the indices last.
        let mut claimed: u32 = 0;
        let mut exhausted = false;
        while claimed < concurrency && !exhausted
            invariant
                exhausted ==> d@.next == total,
                before.wf(),
                before.total == total,
                d@.wf(),
                d@.total == total,
                d@.concurrency == concurrency,
                claimed <= concurrency,
                first == before.next,
                d@.next == before.next + claimed,
                d@.in_flight == claimed,
                forall|i: int|
                    0 <= i < before.next ==> #[trigger] before.slots[i] is Done && executed_outcome(
                        execute,
                        *spec,
                        concurrency,
                        i as u32,
                        before.slots[i]->outcome,
                    ),
                forall|i: int| 0 <= i < before.next ==> d@.slots[i] == before.slots[i],
                forall|k: int|
                    0 <= k < claimed ==> #[trigger] d@.slots[before.next + k] == (Slot::Running {
                        worker_id: k as u32,
                    }),
            decreases concurrency - claimed + if exhausted {
                0int
            } else {
                1int
            },
        {
            match d.claim(claimed) {
                Some(_) => {
                    claimed = claimed + 1;
                },
                None => {
                    exhausted = true;
                },
            }
        }
        if claimed == 0 {
            proof {
                assert forall|i: int| 0 <= i < d@.next implies #[trigger] d@.slots[i] is Done
                    && executed_outcome(execute, *spec, concurrency, i as u32, d@.slots[i]->outcome) by {
                    assert(before.slots[i] is Done);
                }
            }
            break;
        }
        // Execute the claimed indices and record each outcome.
        let ghost claimed_state: DispatchState = d@;
        let mut k: u32 = 0;
        while k < claimed
            invariant
                d@.wf(),
                d@.total == total,
                d@.concurrency == concurrency,
                k <= claimed,
                claimed <= concurrency,
                before.wf(),
                before.total == total,
                first == before.next,
                d@.next == before.next + claimed,
                forall|i: int|
                    0 <= i < before.next ==> #[trigger] before.slots[i] is Done && executed_outcome(
                        execute,
                        *spec,
                        concurrency,
                        i as u32,
                        before.slots[i]->outcome,
                    ),
                d@.in_flight == claimed - k,
                forall|i: u32| i < total ==> call_requires(execute, (spec, i)),
                forall|i: int| 0 <= i < before.next ==> d@.slots[i] == before.slots[i],
                forall|j: int|
                    k <= j < claimed ==> #[trigger] d@.slots[before.next + j] == (Slot::Running {
                        worker_id: j as u32,
                    }),
                forall|j: int|
                    0 <= j < k ==> #[trigger] d@.slots[before.next + j] is Done && executed_outcome(
                        execute,
                        *spec,
                        concurrency,
                        (before.next + j) as u32,
                        d@.slots[before.next + j]->outcome,
                    ),
            decreases claimed - k,
        {
            let index = first + k;
            let started = std::time::Instant::now();
            let res = execute(spec, index);
            let elapsed = millis_since(&started);
            let ghost pre = d@;
            let accepted = d.complete(index, res, elapsed);
            proof {
                assert(pre.slots[before.next + k] == (Slot::Running { worker_id: k }));
                let o = outcome_of(index, k, res, elapsed);
                assert(d@.slots[index as int] == (Slot::Done { outcome: o }));
                assert(executed_outcome(execute, *spec, concurrency, index, o));
            }
            k = k + 1;
        }
        proof {
            ran = ran + claimed as nat;
            assert forall|i: int| 0 <= i < d@.next implies #[trigger] d@.slots[i] is Done
                && executed_outcome(execute, *spec, concurrency, i as u32, d@.slots[i]->outcome) by {
                if i >= before.next {
                    assert(d@.slots[before.next + (i - before.next)] is Done);
                } else {
                    assert(before.slots[i] is Done);
                }
            }
        }
        if let Some(limit) = deadline_ms {
            if millis_since(&start) >= limit {
                break;
            }
        }
    }
    let ghost last: DispatchState = d@;
    let report = d.into_report(millis_since(&start));
    proof {
        assert forall|i: int| ran <= i < total implies is_timeout_outcome(
            #[trigger] report.outcomes@[i],
            i as u32,
            None,
        ) by {
            assert(last.slots[i] is Pending);
        }
        assert forall|i: int| 0 <= i < ran implies executed_outcome(
            execute,
            *spec,
            concurrency,
            i as u32,
            #[trigger] report.outcomes@[i],
        ) by {
            assert(last.slots[i] is Done);
        }
        assert(run_outcomes(execute, *spec, concurrency, report.outcomes@, ran));
    }
    Ok(report)
}

} // verus!
