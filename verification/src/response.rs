//! Telling a response apart by its status, and judging its parsed body.

use crate::error::{ExchangeError, ExchangeErrorView};
use crate::wire::{ErrorResponse, ErrorResponseView, JwtResponse, JwtResponseView};
use vstd::prelude::*;

verus! {

/// The status lies in the success range, 200 to 299.
pub open spec fn success_status(status: u16) -> bool {
    200 <= status && status < 300
}

/// Whether the status lies in the success range.
pub fn is_success(status: u16) -> (success: bool)
    ensures
        success == success_status(status),
{
    200 <= status && status < 300
}

/// The form that the body of a response must have.
#[derive(Clone, Copy, Debug, PartialEq, Eq, Structural)]
pub enum Schema {
    /// `personId`, `accessToken`, `refreshToken`.
    Success,
    /// `type`, `class`, `errorCode`, `errorId`, `timestampMillis`.
    Error,
}

/// The form that goes with a status: the success form in the success range,
/// the error form everywhere else.
pub open spec fn schema_for(status: u16) -> Schema {
    if success_status(status) {
        Schema::Success
    } else {
        Schema::Error
    }
}

/// The form in which the body of a response with this status is to be
/// parsed.
pub fn expected_schema(status: u16) -> (schema: Schema)
    ensures
        schema == schema_for(status),
{
    if is_success(status) {
        Schema::Success
    } else {
        Schema::Error
    }
}

/// What parsing the body of a response gave.
#[derive(Clone, Debug, PartialEq, Eq)]
pub enum ParsedBody {
    /// The body has the success form, with these fields.
    Success(JwtResponse),
    /// The body has the error form, with these fields.
    Error(ErrorResponse),
    /// The body does not have the form it was parsed in.
    Malformed,
}

/// A `ParsedBody` as mathematical values.
pub enum ParsedBodyView {
    Success(JwtResponseView),
    Error(ErrorResponseView),
    Malformed,
}

impl View for ParsedBody {
    type V = ParsedBodyView;

    open spec fn view(&self) -> ParsedBodyView {
        match self {
            ParsedBody::Success(response) => ParsedBodyView::Success(response@),
            ParsedBody::Error(response) => ParsedBodyView::Error(response@),
            ParsedBody::Malformed => ParsedBodyView::Malformed,
        }
    }
}

/// The judgement on a response. In the success range only a body of the
/// success form is accepted; outside it a body of the error form makes a
/// `ServerError` that carries the body. Any other pairing of status and body
/// is a `MalformedResponse`.
pub open spec fn judgement(status: u16, parsed: ParsedBodyView) -> Result<
    JwtResponseView,
    ExchangeErrorView,
> {
    if success_status(status) {
        match parsed {
            ParsedBodyView::Success(response) => Ok(response),
            _ => Err(ExchangeErrorView::MalformedResponse),
        }
    } else {
        match parsed {
            ParsedBodyView::Error(response) => Err(ExchangeErrorView::ServerError { response }),
            _ => Err(ExchangeErrorView::MalformedResponse),
        }
    }
}

/// The views of an accepted response or of the failure in its place.
pub open spec fn judgement_view(judged: Result<JwtResponse, ExchangeError>) -> Result<
    JwtResponseView,
    ExchangeErrorView,
> {
    match judged {
        Ok(response) => Ok(response@),
        Err(error) => Err(error@),
    }
}

/// Judges a response by its status and by what parsing its body gave.
pub fn classify(status: u16, parsed: ParsedBody) -> (judged: Result<JwtResponse, ExchangeError>)
    ensures
        judgement_view(judged) == judgement(status, parsed@),
{
    if is_success(status) {
        match parsed {
            ParsedBody::Success(response) => Ok(response),
            _ => Err(ExchangeError::MalformedResponse),
        }
    } else {
        match parsed {
            ParsedBody::Error(response) => Err(ExchangeError::ServerError { response }),
            _ => Err(ExchangeError::MalformedResponse),
        }
    }
}

} // verus!
