//! The three bodies that cross the wire, with plain fields.
//!
//! Their JSON field names are `refreshToken`, `unit`, `value`; `personId`,
//! `accessToken`, `refreshToken`; and `type`, `class`, `errorCode`, `errorId`,
//! `timestampMillis`.

use vstd::prelude::*;

verus! {

/// Body of the exchange request.
#[derive(Clone, Debug, PartialEq, Eq)]
pub struct JwtRequest {
    pub refresh_token: String,
    /// Label of the unit in which `value` counts.
    pub unit: String,
    pub value: i64,
}

/// A `JwtRequest` as mathematical values.
pub struct JwtRequestView {
    pub refresh_token: Seq<char>,
    pub unit: Seq<char>,
    pub value: int,
}

impl View for JwtRequest {
    type V = JwtRequestView;

    open spec fn view(&self) -> JwtRequestView {
        JwtRequestView {
            refresh_token: self.refresh_token@,
            unit: self.unit@,
            value: self.value as int,
        }
    }
}

/// Body of a response in the success range.
#[derive(Clone, Debug, PartialEq, Eq)]
pub struct JwtResponse {
    pub person_id: String,
    pub access_token: String,
    pub refresh_token: String,
}

/// A `JwtResponse` as mathematical values.
pub struct JwtResponseView {
    pub person_id: Seq<char>,
    pub access_token: Seq<char>,
    pub refresh_token: Seq<char>,
}

impl View for JwtResponse {
    type V = JwtResponseView;

    open spec fn view(&self) -> JwtResponseView {
        JwtResponseView {
            person_id: self.person_id@,
            access_token: self.access_token@,
            refresh_token: self.refresh_token@,
        }
    }
}

/// Body of a response outside the success range.
#[derive(Clone, Debug, PartialEq, Eq)]
pub struct ErrorResponse {
    pub error_type: String,
    pub class: String,
    pub error_code: i32,
    pub error_id: String,
    pub timestamp_millis: i64,
}

/// An `ErrorResponse` as mathematical values.
pub struct ErrorResponseView {
    pub error_type: Seq<char>,
    pub class: Seq<char>,
    pub error_code: int,
    pub error_id: Seq<char>,
    pub timestamp_millis: int,
}

impl View for ErrorResponse {
    type V = ErrorResponseView;

    open spec fn view(&self) -> ErrorResponseView {
        ErrorResponseView {
            error_type: self.error_type@,
            class: self.class@,
            error_code: self.error_code as int,
            error_id: self.error_id@,
            timestamp_millis: self.timestamp_millis as int,
        }
    }
}

} // verus!
