//! A bounded-concurrency batch request dispatcher.
//!
//! A batch issues the same request a fixed number of times, never keeping more
//! than a fixed number of them in flight, and reports one outcome per request
//! index together with the wall-clock time the batch took. A failed request is
//! recorded as data and never stops the rest of the batch.
use vstd::prelude::*;

pub mod clock;
pub mod config;
pub mod dispatcher;
pub mod driver;
pub mod error;
pub mod laws;
pub mod outcome;
pub mod report;

pub use config::{BatchConfig, ConfigError, RequestSpec};
pub use dispatcher::{Dispatcher, Slot};
pub use driver::run_batch;
pub use error::{response_result, ErrorWrapper};
pub use outcome::{ErrorKind, RequestError, RequestOutcome};
pub use report::BatchReport;

verus! {

} // verus!
