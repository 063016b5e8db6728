//! Transport errors of the HTTP client, and how they become failure outcomes.
use vstd::prelude::*;
use crate::outcome::{ErrorKind, RequestError};

verus! {

#[verifier::external_type_specification]
#[verifier::external_body]
pub struct ExReqwestError(reqwest::Error);

/// Relies on `reqwest::Error::is_timeout`: whether the error is an I/O timeout.
pub assume_specification[ reqwest::Error::is_timeout ](error: &reqwest::Error) -> bool;

/// Relies on `reqwest::Error::is_serialization`: whether a body failed to
/// encode or decode.
pub assume_specification[ reqwest::Error::is_serialization ](error: &reqwest::Error) -> bool;

/// Relies on `reqwest::Error::is_client_error`: whether a response carried a 4xx status.
pub assume_specification[ reqwest::Error::is_client_error ](error: &reqwest::Error) -> bool;

/// Relies on `reqwest::Error::is_server_error`: whether a response carried a 5xx status.
pub assume_specification[ reqwest::Error::is_server_error ](error: &reqwest::Error) -> bool;

/// An error of the HTTP client, carried as it came.
#[derive(Debug)]
pub enum ErrorWrapper {
    HttpRequestError { error: reqwest::Error },
}

impl From<reqwest::Error> for ErrorWrapper {
    fn from(error: reqwest::Error) -> (r: ErrorWrapper)
        ensures
            r == (ErrorWrapper::HttpRequestError { error }),
    {
        ErrorWrapper::HttpRequestError { error }
    }
}

impl vstd::std_specs::convert::FromSpecImpl<reqwest::Error> for ErrorWrapper {
    open spec fn obeys_from_spec() -> bool {
        true
    }

    open spec fn from_spec(error: reqwest::Error) -> ErrorWrapper {
        ErrorWrapper::HttpRequestError { error }
    }
}

/// The kind of a failure, from what the client says of it: a timeout first,
/// then an error status, then a decode failure; anything else is the network.
pub open spec fn kind_of(timed_out: bool, status_error: bool, decode_error: bool) -> ErrorKind {
    if timed_out {
        ErrorKind::Timeout
    } else if status_error {
        ErrorKind::HttpStatusError
    } else if decode_error {
        ErrorKind::DecodeError
    } else {
        ErrorKind::NetworkError
    }
}

/// Whether `status` is a success status (2xx).
pub open spec fn is_success_status(status: u16) -> bool {
    200 <= status <= 299
}

impl ErrorKind {
    /// Classifies a failure from what the client reports of it.
    pub fn classify(timed_out: bool, status_error: bool, decode_error: bool) -> (r: ErrorKind)
        ensures
            r == kind_of(timed_out, status_error, decode_error),
    {
        if timed_out {
            ErrorKind::Timeout
        } else if status_error {
            ErrorKind::HttpStatusError
        } else if decode_error {
            ErrorKind::DecodeError
        } else {
            ErrorKind::NetworkError
        }
    }
}

/// The result of a request whose response arrived with `status` and `body`:
/// the body for a 2xx status, else an `HttpStatusError` that carries the body
/// as its message.
pub fn response_result(status: u16, body: String) -> (r: Result<String, RequestError>)
    ensures
        is_success_status(status) ==> r == Ok::<String, RequestError>(body),
        !is_success_status(status) ==> r == Err::<String, RequestError>(
            RequestError { kind: ErrorKind::HttpStatusError, message: body },
        ),
{
    if 200 <= status && status <= 299 {
        Ok(body)
    } else {
        Err(RequestError { kind: ErrorKind::HttpStatusError, message: body })
    }
}

impl ErrorWrapper {
    /// The kind of failure this client error stands for, by `kind_of` over what
    /// the client reports: a timeout, a 4xx or 5xx status, a decode failure.
    pub fn kind(&self) -> ErrorKind {
        match self {
            ErrorWrapper::HttpRequestError { error } => {
                let timed_out = error.is_timeout();
                let status_error = error.is_client_error() || error.is_server_error();
                let decode_error = error.is_serialization();
                ErrorKind::classify(timed_out, status_error, decode_error)
            },
        }
    }

    /// The failure this client error stands for, with the client's own message.
    pub fn to_request_error(&self) -> RequestError {
        let kind = self.kind();
        let message = match self {
            ErrorWrapper::HttpRequestError { error } => error.to_string(),
        };
        RequestError { kind, message }
    }
}

} // verus!
