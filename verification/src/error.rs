//! The ways in which an exchange fails, and the exit codes.

use crate::wire::{ErrorResponse, ErrorResponseView};
use vstd::prelude::*;
use vstd::string::*;

verus! {

/// Exit code of an exchange that wrote its output.
pub const EXIT_SUCCESS: i32 = 0;

/// Exit code of an exchange that failed, whatever the failure.
pub const EXIT_FAILURE: i32 = 1;

/// Why an exchange failed. Each failure ends the exchange; none is retried.
#[derive(Clone, Debug, PartialEq, Eq)]
pub enum ExchangeError {
    /// The environment variable of this name, which should hold a credential,
    /// is not set.
    MissingCredential { variable: String },
    /// The request could not be sent, or the response could not be read.
    TransportFailure,
    /// The server answered outside the success range, with this body.
    ServerError { response: ErrorResponse },
    /// The body of the response is not of the form that its status calls for.
    MalformedResponse,
    /// The output file could not be written, or its absolute path not found.
    OutputWriteFailure,
}

/// An `ExchangeError` as mathematical values.
pub enum ExchangeErrorView {
    MissingCredential { variable: Seq<char> },
    TransportFailure,
    ServerError { response: ErrorResponseView },
    MalformedResponse,
    OutputWriteFailure,
}

impl View for ExchangeError {
    type V = ExchangeErrorView;

    open spec fn view(&self) -> ExchangeErrorView {
        match self {
            ExchangeError::MissingCredential { variable } => ExchangeErrorView::MissingCredential {
                variable: variable@,
            },
            ExchangeError::TransportFailure => ExchangeErrorView::TransportFailure,
            ExchangeError::ServerError { response } => ExchangeErrorView::ServerError {
                response: response@,
            },
            ExchangeError::MalformedResponse => ExchangeErrorView::MalformedResponse,
            ExchangeError::OutputWriteFailure => ExchangeErrorView::OutputWriteFailure,
        }
    }
}

/// What the operator is told when a credential is missing: the words
/// `environment variable` and the variable's name in single quotes.
pub open spec fn missing_credential_text(variable: Seq<char>) -> Seq<char> {
    "environment variable '"@ + variable + "'"@
}

/// The message that names a missing credential's environment variable.
pub fn missing_credential_message(variable: &str) -> (message: String)
    ensures
        message@ == missing_credential_text(variable@),
{
    "environment variable '".to_owned().concat(variable).concat("'")
}

} // verus!
