//! What a single request ends in.
use vstd::prelude::*;
use vstd::string::StringExecFns;

verus! {

/// Why one request of a batch did not succeed.
#[derive(Clone, Copy, Debug, PartialEq, Eq, Structural)]
pub enum ErrorKind {
    /// The connection or the transport failed.
    NetworkError,
    /// The server answered with a status outside the 2xx range.
    HttpStatusError,
    /// The response body could not be read or decoded.
    DecodeError,
    /// The batch deadline passed before the request completed.
    Timeout,
}

/// The failure reported by an execution capability for one request.
#[derive(Debug)]
pub struct RequestError {
    pub kind: ErrorKind,
    pub message: String,
}

/// The outcome of one request index, tagged with the worker that ran it.
#[derive(Debug)]
#[allow(inconsistent_fields)]
pub enum RequestOutcome {
    Success { index: u32, worker_id: u32, body: String, elapsed_ms: u128 },
    /// `worker_id` is `None` only for an index that no worker ever claimed.
    Failure { index: u32, worker_id: Option<u32>, error_kind: ErrorKind, message: String },
}

/// The message carried by an outcome synthesized for a request that missed the deadline.
pub open spec fn timeout_message() -> Seq<char> {
    "deadline exceeded before completion"@
}

/// The outcome recorded when worker `worker_id` finishes request `index` with `result`.
pub open spec fn outcome_of(
    index: u32,
    worker_id: u32,
    result: Result<String, RequestError>,
    elapsed_ms: u128,
) -> RequestOutcome {
    match result {
        Ok(body) => RequestOutcome::Success { index, worker_id, body, elapsed_ms },
        Err(e) => RequestOutcome::Failure {
            index,
            worker_id: Some(worker_id),
            error_kind: e.kind,
            message: e.message,
        },
    }
}

/// Whether `o` is the outcome synthesized for request `index` when the deadline
/// passed, with `worker_id` the worker that had claimed it, if any.
pub open spec fn is_timeout_outcome(o: RequestOutcome, index: u32, worker_id: Option<u32>) -> bool {
    match o {
        RequestOutcome::Failure { index: i, worker_id: w, error_kind, message } => {
            &&& i == index
            &&& w == worker_id
            &&& error_kind == ErrorKind::Timeout
            &&& message@ == timeout_message()
        },
        _ => false,
    }
}

impl RequestOutcome {
    pub open spec fn spec_index(self) -> u32 {
        match self {
            RequestOutcome::Success { index, .. } => index,
            RequestOutcome::Failure { index, .. } => index,
        }
    }

    pub open spec fn spec_is_success(self) -> bool {
        self is Success
    }

    /// Wraps the result of executing request `index` on worker `worker_id`.
    pub fn settle(index: u32, worker_id: u32, result: Result<String, RequestError>, elapsed_ms: u128) -> (r:
        RequestOutcome)
        ensures
            r == outcome_of(index, worker_id, result, elapsed_ms),
    {
        match result {
            Ok(body) => RequestOutcome::Success { index, worker_id, body, elapsed_ms },
            Err(e) => RequestOutcome::Failure {
                index,
                worker_id: Some(worker_id),
                error_kind: e.kind,
                message: e.message,
            },
        }
    }

    /// The outcome of request `index` when the deadline passed before it completed.
    pub fn timed_out(index: u32, worker_id: Option<u32>) -> (r: RequestOutcome)
        ensures
            is_timeout_outcome(r, index, worker_id),
    {
        proof {
            reveal_strlit("deadline exceeded before completion");
        }
        RequestOutcome::Failure {
            index,
            worker_id,
            error_kind: ErrorKind::Timeout,
            message: String::from_str("deadline exceeded before completion"),
        }
    }

    /// The request index this outcome belongs to.
    pub fn index(&self) -> (r: u32)
        ensures
            r == self.spec_index(),
    {
        match self {
            RequestOutcome::Success { index, .. } => *index,
            RequestOutcome::Failure { index, .. } => *index,
        }
    }

    /// Whether the request succeeded.
    pub fn is_success(&self) -> (r: bool)
        ensures
            r == self.spec_is_success(),
    {
        match self {
            RequestOutcome::Success { .. } => true,
            RequestOutcome::Failure { .. } => false,
        }
    }

    /// The kind of failure, or `None` for a success.
    pub fn error_kind(&self) -> (r: Option<ErrorKind>)
        ensures
            match *self {
                RequestOutcome::Success { .. } => r is None,
                RequestOutcome::Failure { error_kind, .. } => r == Some(error_kind),
            },
    {
        match self {
            RequestOutcome::Success { .. } => None,
            RequestOutcome::Failure { error_kind, .. } => Some(*error_kind),
        }
    }
}

} // verus!
