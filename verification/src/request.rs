//! The exchange request: where it goes, who sends it, what it carries.

use crate::config::{exchange_url, CliView};
use crate::headers::{
    header_map_values, request_header_values, request_headers, token_usable, UnusableToken,
};
use crate::wire::{JwtRequest, JwtRequestView};
use reqwest::header::HeaderMap;
use vstd::prelude::*;

verus! {

/// One request to the exchange endpoint, to be sent as a POST.
#[derive(Clone, Debug, PartialEq, Eq)]
pub struct ExchangeRequest {
    /// URL of the exchange endpoint.
    pub url: String,
    /// Token that authorizes the request.
    pub access_token: String,
    /// Body of the request, sent as JSON.
    pub body: JwtRequest,
}

/// An `ExchangeRequest` as mathematical values.
pub struct ExchangeRequestView {
    pub url: Seq<char>,
    pub access_token: Seq<char>,
    pub body: JwtRequestView,
}

impl View for ExchangeRequest {
    type V = ExchangeRequestView;

    open spec fn view(&self) -> ExchangeRequestView {
        ExchangeRequestView { url: self.url@, access_token: self.access_token@, body: self.body@ }
    }
}

/// The request that a configuration and its two credentials make: to the
/// exchange endpoint below the base URL, authorized by the access token,
/// carrying the refresh token, the unit's label and the value.
pub open spec fn exchange_request(
    cli: CliView,
    access_token: Seq<char>,
    refresh_token: Seq<char>,
) -> ExchangeRequestView {
    ExchangeRequestView {
        url: exchange_url(cli.url),
        access_token,
        body: JwtRequestView { refresh_token, unit: cli.unit.label(), value: cli.value },
    }
}

impl ExchangeRequest {
    /// The headers to send the request with. Fails exactly when the access
    /// token cannot stand in a header.
    pub fn headers(&self) -> (headers: Result<HeaderMap, UnusableToken>)
        ensures
            headers is Ok <==> token_usable(self@.access_token),
            headers matches Ok(map) ==> header_map_values(map) == request_header_values(
                self@.access_token,
            ),
    {
        request_headers(self.access_token.as_str())
    }
}

} // verus!
