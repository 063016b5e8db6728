//! What a batch is asked to do.
use vstd::prelude::*;

verus! {

/// The request repeated by every worker of a batch; shared read-only.
#[derive(Clone, Debug)]
pub struct RequestSpec {
    pub method: String,
    pub url: String,
    pub body: Option<String>,
}

/// How many requests a batch issues and how many may be in flight at once.
#[derive(Clone, Copy, Debug, PartialEq, Eq, Structural)]
pub struct BatchConfig {
    pub total_requests: u32,
    pub concurrency: u32,
}

/// Why a batch could not be started.
#[derive(Clone, Copy, Debug, PartialEq, Eq, Structural)]
pub enum ConfigError {
    /// A concurrency budget of zero could never run a request.
    ZeroConcurrency,
}

impl BatchConfig {
    pub open spec fn spec_is_valid(self) -> bool {
        self.concurrency >= 1
    }

    /// Checks the configuration before any worker starts.
    pub fn validate(&self) -> (r: Result<(), ConfigError>)
        ensures
            r is Ok <==> self.spec_is_valid(),
            r is Err ==> r == Err::<(), ConfigError>(ConfigError::ZeroConcurrency),
    {
        if self.concurrency == 0 {
            Err(ConfigError::ZeroConcurrency)
        } else {
            Ok(())
        }
    }

    /// The number of workers worth starting: one per unit of budget, but never
    /// more than there are requests, so an empty batch starts none.
    pub fn workers_to_spawn(&self) -> (r: u32)
        ensures
            r == if self.concurrency <= self.total_requests {
                self.concurrency
            } else {
                self.total_requests
            },
    {
        if self.concurrency <= self.total_requests {
            self.concurrency
        } else {
            self.total_requests
        }
    }
}

} // verus!
