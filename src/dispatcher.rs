//! The bookkeeping of a batch: which request indices are unclaimed, which are
//! in flight on which worker, and which have an outcome.
//!
//! Workers, wherever they run, share one `Dispatcher` under exclusive access:
//! a worker claims the next index, executes it outside the lock, and hands the
//! result back with `complete`. Every decision of the batch is made here.
use vstd::prelude::*;
use vstd::pervasive::VecAdditionalExecFns;
use crate::config::{BatchConfig, ConfigError};
use crate::outcome::{outcome_of, is_timeout_outcome, RequestError, RequestOutcome};
use crate::report::{indexed_exactly, BatchReport};

verus! {

/// Where one request index stands.
#[derive(Debug)]
pub enum Slot {
    Pending,
    Running { worker_id: u32 },
    Done { outcome: RequestOutcome },
}

/// The abstract state of a dispatcher.
pub ghost struct DispatchState {
    pub total: u32,
    pub concurrency: u32,
    /// The lowest index not yet claimed.
    pub next: u32,
    /// The number of requests claimed and not yet completed.
    pub in_flight: u32,
    pub slots: Seq<Slot>,
}

/// The number of slots that are in flight.
pub open spec fn running_count(slots: Seq<Slot>) -> nat
    decreases slots.len(),
{
    if slots.len() == 0 {
        0
    } else {
        running_count(slots.drop_last()) + if slots.last() is Running {
            1nat
        } else {
            0nat
        }
    }
}

/// Whether `o` is what the report holds for index `i` whose slot is `slot`.
pub open spec fn entry_matches(slot: Slot, i: u32, o: RequestOutcome) -> bool {
    match slot {
        Slot::Done { outcome } => o == outcome,
        Slot::Running { worker_id } => is_timeout_outcome(o, i, Some(worker_id)),
        Slot::Pending => is_timeout_outcome(o, i, None),
    }
}

impl DispatchState {
    pub open spec fn wf(self) -> bool {
        &&& self.concurrency >= 1
        &&& self.slots.len() == self.total
        &&& self.next <= self.total
        &&& forall|i: int| 0 <= i < self.next ==> !(#[trigger] self.slots[i] is Pending)
        &&& forall|i: int| self.next <= i < self.total ==> #[trigger] self.slots[i] is Pending
        &&& forall|i: int|
            0 <= i < self.total && #[trigger] self.slots[i] is Done ==> self.slots[i]->outcome.spec_index()
                == i
        &&& self.in_flight == running_count(self.slots)
        &&& self.in_flight <= self.concurrency
    }

    /// A new index can be handed out: one is left, and the budget has room.
    pub open spec fn can_claim(self) -> bool {
        self.next < self.total && self.in_flight < self.concurrency
    }

    /// Request `index` is in flight and may be completed.
    pub open spec fn can_complete(self, index: u32) -> bool {
        index < self.total && self.slots[index as int] is Running
    }

    /// Every request has its outcome.
    pub open spec fn finished(self) -> bool {
        forall|i: int| 0 <= i < self.total ==> #[trigger] self.slots[i] is Done
    }
}

proof fn lemma_running_count_update(s: Seq<Slot>, i: int, v: Slot)
    requires
        0 <= i < s.len(),
    ensures
        running_count(s.update(i, v)) + (if s[i] is Running {
            1int
        } else {
            0int
        }) == running_count(s) + (if v is Running {
            1int
        } else {
            0int
        }),
    decreases s.len(),
{
    if i < s.len() - 1 {
        assert(s.update(i, v).drop_last() =~= s.drop_last().update(i, v));
        lemma_running_count_update(s.drop_last(), i, v);
    } else {
        assert(s.update(i, v).drop_last() =~= s.drop_last());
    }
}

proof fn lemma_running_count_zero(s: Seq<Slot>, i: int)
    requires
        0 <= i < s.len(),
        running_count(s) == 0,
    ensures
        !(s[i] is Running),
    decreases s.len(),
{
    if i < s.len() - 1 {
        lemma_running_count_zero(s.drop_last(), i);
    }
}

/// The shared state of one batch run.
pub struct Dispatcher {
    total: u32,
    concurrency: u32,
    next: u32,
    in_flight: u32,
    slots: Vec<Slot>,
}

impl View for Dispatcher {
    type V = DispatchState;

    closed spec fn view(&self) -> DispatchState {
        DispatchState {
            total: self.total,
            concurrency: self.concurrency,
            next: self.next,
            in_flight: self.in_flight,
            slots: self.slots@,
        }
    }
}

impl Dispatcher {
    /// Starts the bookkeeping of a batch, or refuses a configuration that could
    /// never run a request.
    pub fn new(config: BatchConfig) -> (r: Result<Dispatcher, ConfigError>)
        ensures
            r is Err <==> config.concurrency == 0,
            r is Err ==> r == Err::<Dispatcher, ConfigError>(ConfigError::ZeroConcurrency),
            r matches Ok(d) ==> {
                &&& d@.wf()
                &&& d@.total == config.total_requests
                &&& d@.concurrency == config.concurrency
                &&& d@.next == 0
                &&& d@.in_flight == 0
            },
    {
        if config.concurrency == 0 {
            return Err(ConfigError::ZeroConcurrency);
        }
        let mut slots: Vec<Slot> = Vec::new();
        let mut i: u32 = 0;
        while i < config.total_requests
            invariant
                i <= config.total_requests,
                slots@.len() == i,
                forall|j: int| 0 <= j < i ==> #[trigger] slots@[j] is Pending,
                running_count(slots@) == 0,
            decreases config.total_requests - i,
        {
            proof {
                assert(slots@.push(Slot::Pending).drop_last() =~= slots@);
            }
            slots.push(Slot::Pending);
            i = i + 1;
        }
        Ok(
            Dispatcher {
                total: config.total_requests,
                concurrency: config.concurrency,
                next: 0,
                in_flight: 0,
                slots,
            },
        )
    }

    /// Hands the next unclaimed index to worker `worker_id`, or `None` when no
    /// index is left or the concurrency budget is used up.
    pub fn claim(&mut self, worker_id: u32) -> (r: Option<u32>)
        requires
            old(self)@.wf(),
        ensures
            final(self)@.wf(),
            final(self)@.total == old(self)@.total,
            final(self)@.concurrency == old(self)@.concurrency,
            old(self)@.can_claim() ==> {
                &&& r == Some(old(self)@.next)
                &&& final(self)@.next == old(self)@.next + 1
                &&& final(self)@.in_flight == old(self)@.in_flight + 1
                &&& final(self)@.slots == old(self)@.slots.update(
                    old(self)@.next as int,
                    Slot::Running { worker_id },
                )
            },
            !old(self)@.can_claim() ==> r is None && final(self)@ == old(self)@,
    {
        if self.next < self.total && self.in_flight < self.concurrency {
            let index = self.next;
            proof {
                lemma_running_count_update(self.slots@, index as int, Slot::Running { worker_id });
            }
            self.slots.set(index as usize, Slot::Running { worker_id });
            self.next = index + 1;
            self.in_flight = self.in_flight + 1;
            Some(index)
        } else {
            None
        }
    }

    /// Records the result of request `index`, executed by the worker that
    /// claimed it. Returns `false`, and changes nothing, when `index` is not in
    /// flight (never claimed, or already completed).
    pub fn complete(&mut self, index: u32, result: Result<String, RequestError>, elapsed_ms: u128) -> (r:
        bool)
        requires
            old(self)@.wf(),
        ensures
            final(self)@.wf(),
            final(self)@.total == old(self)@.total,
            final(self)@.concurrency == old(self)@.concurrency,
            r == old(self)@.can_complete(index),
            r ==> {
                &&& final(self)@.next == old(self)@.next
                &&& final(self)@.in_flight == old(self)@.in_flight - 1
                &&& final(self)@.slots == old(self)@.slots.update(
                    index as int,
                    Slot::Done {
                        outcome: outcome_of(
                            index,
                            old(self)@.slots[index as int]->worker_id,
                            result,
                            elapsed_ms,
                        ),
                    },
                )
            },
            !r ==> final(self)@ == old(self)@,
    {
        if index >= self.total {
            return false;
        }
        let worker_id = match &self.slots[index as usize] {
            Slot::Running { worker_id } => *worker_id,
            _ => {
                return false;
            },
        };
        let outcome = RequestOutcome::settle(index, worker_id, result, elapsed_ms);
        proof {
            lemma_running_count_update(self.slots@, index as int, Slot::Done { outcome });
        }
        self.slots.set(index as usize, Slot::Done { outcome });
        self.in_flight = self.in_flight - 1;
        true
    }

    /// The lowest index not yet claimed.
    pub fn next_index(&self) -> (r: u32)
        ensures
            r == self@.next,
    {
        self.next
    }

    /// The number of requests claimed and not yet completed.
    pub fn in_flight(&self) -> (r: u32)
        ensures
            r == self@.in_flight,
    {
        self.in_flight
    }

    /// Whether every request has its outcome.
    pub fn is_finished(&self) -> (r: bool)
        requires
            self@.wf(),
        ensures
            r == self@.finished(),
    {
        proof {
            if self.next == self.total && self.in_flight == 0 {
                assert forall|i: int| 0 <= i < self@.total implies #[trigger] self@.slots[i] is Done by {
                    lemma_running_count_zero(self.slots@, i);
                }
            }
            if self@.finished() {
                if self.next < self.total {
                    assert(self@.slots[self.next as int] is Done);
                }
                if self.in_flight > 0 {
                    lemma_running_count_zero_when_all_done(self.slots@);
                }
            }
        }
        self.next == self.total && self.in_flight == 0
    }

    /// Ends the batch and assembles its report: each completed index keeps its
    /// outcome, and each index still unclaimed or in flight becomes a `Timeout`
    /// failure. Called on a finished dispatcher, it reports every outcome.
    pub fn into_report(self, elapsed_ms: u128) -> (r: BatchReport)
        requires
            self@.wf(),
        ensures
            r.elapsed_ms == elapsed_ms,
            indexed_exactly(r.outcomes@, self@.total as nat),
            forall|i: int|
                0 <= i < self@.total ==> entry_matches(self@.slots[i], i as u32, #[trigger] r.outcomes@[i]),
    {
        let ghost orig = self@.slots;
        let mut slots = self.slots;
        let total = self.total;
        let mut outcomes: Vec<RequestOutcome> = Vec::new();
        let mut i: u32 = 0;
        while i < total
            invariant
                i <= total,
                total == orig.len(),
                slots@.len() == orig.len(),
                forall|j: int| i <= j < total ==> slots@[j] == orig[j],
                forall|j: int|
                    0 <= j < total && #[trigger] orig[j] is Done ==> orig[j]->outcome.spec_index() == j,
                outcomes@.len() == i,
                forall|j: int|
                    0 <= j < i ==> entry_matches(orig[j], j as u32, #[trigger] outcomes@[j])
                        && outcomes@[j].spec_index() == j,
            decreases total - i,
        {
            let mut taken = Slot::Pending;
            slots.set_and_swap(i as usize, &mut taken);
            let outcome = match taken {
                Slot::Done { outcome } => outcome,
                Slot::Running { worker_id } => RequestOutcome::timed_out(i, Some(worker_id)),
                Slot::Pending => RequestOutcome::timed_out(i, None),
            };
            outcomes.push(outcome);
            i = i + 1;
        }
        BatchReport { outcomes, elapsed_ms }
    }
}

proof fn lemma_running_count_zero_when_all_done(s: Seq<Slot>)
    requires
        forall|i: int| 0 <= i < s.len() ==> #[trigger] s[i] is Done,
    ensures
        running_count(s) == 0,
    decreases s.len(),
{
    if s.len() > 0 {
        assert(s.last() is Done);
        lemma_running_count_zero_when_all_done(s.drop_last());
    }
}

} // verus!
