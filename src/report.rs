//! The terminal artifact of a batch.
use vstd::prelude::*;
use crate::outcome::{ErrorKind, RequestOutcome};

verus! {

/// One outcome per request index, at the position of that index, and the
/// wall-clock time the batch took.
#[derive(Debug)]
pub struct BatchReport {
    pub outcomes: Vec<RequestOutcome>,
    pub elapsed_ms: u128,
}

/// `outcomes` holds exactly the indices `0..n`, each once, in order.
pub open spec fn indexed_exactly(outcomes: Seq<RequestOutcome>, n: nat) -> bool {
    &&& outcomes.len() == n
    &&& forall|i: int| 0 <= i < n ==> (#[trigger] outcomes[i]).spec_index() == i
}

/// How many of `outcomes` satisfy `p`.
pub open spec fn count_where(outcomes: Seq<RequestOutcome>, p: spec_fn(RequestOutcome) -> bool) -> nat
    decreases outcomes.len(),
{
    if outcomes.len() == 0 {
        0
    } else {
        count_where(outcomes.drop_last(), p) + if p(outcomes.last()) {
            1nat
        } else {
            0nat
        }
    }
}

pub open spec fn is_success(o: RequestOutcome) -> bool {
    o is Success
}

pub open spec fn has_kind(kind: ErrorKind) -> spec_fn(RequestOutcome) -> bool {
    |o: RequestOutcome|
        match o {
            RequestOutcome::Failure { error_kind, .. } => error_kind == kind,
            _ => false,
        }
}

impl BatchReport {
    /// The number of outcomes, which is the number of requests in the batch.
    pub fn len(&self) -> (r: usize)
        ensures
            r == self.outcomes@.len(),
    {
        self.outcomes.len()
    }

    /// The number of requests that succeeded.
    pub fn success_count(&self) -> (r: usize)
        ensures
            r == count_where(self.outcomes@, |o: RequestOutcome| is_success(o)),
    {
        let mut n: usize = 0;
        let mut i: usize = 0;
        while i < self.outcomes.len()
            invariant
                i <= self.outcomes@.len(),
                n == count_where(self.outcomes@.take(i as int), |o: RequestOutcome| is_success(o)),
                n <= i,
            decreases self.outcomes@.len() - i,
        {
            assert(self.outcomes@.take(i + 1).drop_last() =~= self.outcomes@.take(i as int));
            if self.outcomes[i].is_success() {
                n = n + 1;
            }
            i = i + 1;
        }
        assert(self.outcomes@.take(i as int) =~= self.outcomes@);
        n
    }

    /// The number of requests that failed, whatever the kind.
    pub fn failure_count(&self) -> (r: usize)
        ensures
            r == count_where(self.outcomes@, |o: RequestOutcome| !is_success(o)),
    {
        let mut n: usize = 0;
        let mut i: usize = 0;
        while i < self.outcomes.len()
            invariant
                i <= self.outcomes@.len(),
                n == count_where(self.outcomes@.take(i as int), |o: RequestOutcome| !is_success(o)),
                n <= i,
            decreases self.outcomes@.len() - i,
        {
            assert(self.outcomes@.take(i + 1).drop_last() =~= self.outcomes@.take(i as int));
            if !self.outcomes[i].is_success() {
                n = n + 1;
            }
            i = i + 1;
        }
        assert(self.outcomes@.take(i as int) =~= self.outcomes@);
        n
    }

    /// The number of requests that failed with `kind`.
    pub fn count_kind(&self, kind: ErrorKind) -> (r: usize)
        ensures
            r == count_where(self.outcomes@, has_kind(kind)),
    {
        let mut n: usize = 0;
        let mut i: usize = 0;
        while i < self.outcomes.len()
            invariant
                i <= self.outcomes@.len(),
                n == count_where(self.outcomes@.take(i as int), has_kind(kind)),
                n <= i,
            decreases self.outcomes@.len() - i,
        {
            assert(self.outcomes@.take(i + 1).drop_last() =~= self.outcomes@.take(i as int));
            if self.outcomes[i].error_kind() == Some(kind) {
                n = n + 1;
            }
            i = i + 1;
        }
        assert(self.outcomes@.take(i as int) =~= self.outcomes@);
        n
    }
}

} // verus!
