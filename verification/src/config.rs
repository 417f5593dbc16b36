//! The configuration of one exchange and what is read off it.

use crate::error::{ExchangeError, ExchangeErrorView};
use crate::unit::TimeUnit;
use vstd::prelude::*;
use vstd::string::*;

verus! {

/// Validity asked for when the configuration names none.
pub const DEFAULT_VALUE: i64 = 1;

/// Environment variable that holds the access token, unless another is named.
pub const DEFAULT_ACCESS_TOKEN_VARIABLE: &'static str = "OPERATOR_ACCESS_TOKEN";

/// Environment variable that holds the refresh token, unless another is named.
pub const DEFAULT_REFRESH_TOKEN_VARIABLE: &'static str = "OPERATOR_REFRESH_TOKEN";

/// Output target, unless another is named.
pub const DEFAULT_OUTPUT: &'static str = "long_duration_jwt.json";

/// Path of the exchange endpoint below the base URL.
pub const EXCHANGE_PATH: &'static str = "/v1/create-new-jwt";

/// The options of one invocation. Nothing changes them once they are set.
#[derive(Clone, Debug)]
pub struct Cli {
    url: String,
    value: i64,
    unit: TimeUnit,
    access_token_env_var_name: String,
    refresh_token_env_var_name: String,
    output: String,
}

/// A `Cli` as mathematical values.
pub struct CliView {
    /// Base URL of the authentication service.
    pub url: Seq<char>,
    /// For how many units the token is to be valid.
    pub value: int,
    pub unit: TimeUnit,
    pub access_token_env_var_name: Seq<char>,
    pub refresh_token_env_var_name: Seq<char>,
    /// File to write, or directory to write the default file into.
    pub output: Seq<char>,
}

impl View for Cli {
    type V = CliView;

    closed spec fn view(&self) -> CliView {
        CliView {
            url: self.url@,
            value: self.value as int,
            unit: self.unit,
            access_token_env_var_name: self.access_token_env_var_name@,
            refresh_token_env_var_name: self.refresh_token_env_var_name@,
            output: self.output@,
        }
    }
}

/// The configuration that names only the base URL.
pub open spec fn default_configuration(url: Seq<char>) -> CliView {
    CliView {
        url,
        value: DEFAULT_VALUE as int,
        unit: TimeUnit::Hours,
        access_token_env_var_name: DEFAULT_ACCESS_TOKEN_VARIABLE@,
        refresh_token_env_var_name: DEFAULT_REFRESH_TOKEN_VARIABLE@,
        output: DEFAULT_OUTPUT@,
    }
}

/// URL that the exchange request goes to: the base URL and the endpoint's
/// path behind it, with nothing added or taken away between them.
pub open spec fn exchange_url(base: Seq<char>) -> Seq<char> {
    base + EXCHANGE_PATH@
}

/// A credential as its environment variable gave it: the value, or the
/// failure that names the variable when it is not set.
pub open spec fn credential(variable: Seq<char>, found: Option<Seq<char>>) -> Result<
    Seq<char>,
    ExchangeErrorView,
> {
    match found {
        Some(value) => Ok(value),
        None => Err(ExchangeErrorView::MissingCredential { variable }),
    }
}

/// The text of an optional string.
pub open spec fn text_of(found: Option<String>) -> Option<Seq<char>> {
    match found {
        Some(value) => Some(value@),
        None => None,
    }
}

/// The views of a credential or of the failure in its place.
pub open spec fn credential_view(resolved: Result<String, ExchangeError>) -> Result<
    Seq<char>,
    ExchangeErrorView,
> {
    match resolved {
        Ok(value) => Ok(value@),
        Err(error) => Err(error@),
    }
}

impl Cli {
    /// A configuration with every option given.
    pub fn new(
        url: String,
        value: i64,
        unit: TimeUnit,
        access_token_env_var_name: String,
        refresh_token_env_var_name: String,
        output: String,
    ) -> (cli: Cli)
        ensures
            cli@ == (CliView {
                url: url@,
                value: value as int,
                unit,
                access_token_env_var_name: access_token_env_var_name@,
                refresh_token_env_var_name: refresh_token_env_var_name@,
                output: output@,
            }),
    {
        Cli { url, value, unit, access_token_env_var_name, refresh_token_env_var_name, output }
    }

    /// A configuration with the base URL given and every other option at its
    /// default: one hour, the two standard variable names, the standard
    /// output file.
    pub fn with_defaults(url: String) -> (cli: Cli)
        ensures
            cli@ == default_configuration(url@),
    {
        Cli {
            url,
            value: DEFAULT_VALUE,
            unit: TimeUnit::Hours,
            access_token_env_var_name: DEFAULT_ACCESS_TOKEN_VARIABLE.to_owned(),
            refresh_token_env_var_name: DEFAULT_REFRESH_TOKEN_VARIABLE.to_owned(),
            output: DEFAULT_OUTPUT.to_owned(),
        }
    }

    /// The base URL as it was given.
    pub fn get_base_url(&self) -> (url: &str)
        ensures
            url@ == self@.url,
    {
        self.url.as_str()
    }

    /// The wire label of the unit.
    pub fn get_unit(&self) -> (label: String)
        ensures
            label@ == self@.unit.label(),
    {
        self.unit.wire_label()
    }

    /// The unit itself.
    pub fn get_time_unit(&self) -> (unit: TimeUnit)
        ensures
            unit == self@.unit,
    {
        self.unit
    }

    /// For how many units the token is to be valid.
    pub fn get_value(&self) -> (value: i64)
        ensures
            value == self@.value,
    {
        self.value
    }

    /// Name of the environment variable that holds the access token.
    pub fn get_access_token_env_var_name(&self) -> (name: &str)
        ensures
            name@ == self@.access_token_env_var_name,
    {
        self.access_token_env_var_name.as_str()
    }

    /// Name of the environment variable that holds the refresh token.
    pub fn get_refresh_token_env_var_name(&self) -> (name: &str)
        ensures
            name@ == self@.refresh_token_env_var_name,
    {
        self.refresh_token_env_var_name.as_str()
    }

    /// The access token, given what the environment holds under its
    /// variable: the value found, or `MissingCredential` with the variable's
    /// name when none was.
    pub fn get_access_token(&self, found: Option<String>) -> (token: Result<String, ExchangeError>)
        ensures
            credential_view(token) == credential(self@.access_token_env_var_name, text_of(found)),
    {
        match found {
            Some(value) => Ok(value),
            None => Err(
                ExchangeError::MissingCredential {
                    variable: self.access_token_env_var_name.clone(),
                },
            ),
        }
    }

    /// The refresh token, given what the environment holds under its
    /// variable: the value found, or `MissingCredential` with the variable's
    /// name when none was.
    pub fn get_refresh_token(&self, found: Option<String>) -> (token: Result<String, ExchangeError>)
        ensures
            credential_view(token) == credential(self@.refresh_token_env_var_name, text_of(found)),
    {
        match found {
            Some(value) => Ok(value),
            None => Err(
                ExchangeError::MissingCredential {
                    variable: self.refresh_token_env_var_name.clone(),
                },
            ),
        }
    }

    /// The URL of the exchange endpoint.
    pub fn get_url(&self) -> (url: String)
        ensures
            url@ == exchange_url(self@.url),
    {
        self.url.clone().concat(EXCHANGE_PATH)
    }

    /// The output target as it was given.
    pub fn get_output_file(&self) -> (output: &str)
        ensures
            output@ == self@.output,
    {
        self.output.as_str()
    }
}

} // verus!
