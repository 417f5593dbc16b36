//! The course of one exchange, state by state.
//!
//! An exchange resolves its inputs, sends one request, classifies the
//! response, and then either writes the output and is done, or reports the
//! server's error and has failed. Each state is a type of its own, and each
//! step takes its state by value: no state is entered twice, and every course
//! ends in `Done` or in `Failed`. A state is made by the step that leads to
//! it and in no other way, so whoever holds a `SendingRequest` has resolved
//! both credentials. The steps decide; reading the environment, sending,
//! parsing and writing are left to the caller, who reports back what
//! happened.

use crate::config::{credential, text_of, Cli, CliView};
use crate::error::{ExchangeError, ExchangeErrorView, EXIT_FAILURE, EXIT_SUCCESS};
use crate::output::{output_path, resolve_output_path};
use crate::request::{exchange_request, ExchangeRequest, ExchangeRequestView};
use crate::response::{
    classify, expected_schema, judgement, schema_for, ParsedBody, ParsedBodyView, Schema,
};
use crate::wire::{ErrorResponse, ErrorResponseView, JwtRequest};
use vstd::prelude::*;
use vstd::string::*;

verus! {

/// First state: the configuration is known, the credentials are not.
#[derive(Clone, Debug)]
pub struct ResolvingInputs {
    cli: Cli,
}

impl View for ResolvingInputs {
    type V = CliView;

    closed spec fn view(&self) -> CliView {
        self.cli@
    }
}

/// Second state: the request is ready to be sent, once.
#[derive(Clone, Debug, PartialEq, Eq)]
pub struct SendingRequest {
    request: ExchangeRequest,
    /// Output target, kept for the writing.
    output: String,
}

/// A `SendingRequest` as mathematical values.
pub struct SendingRequestView {
    pub request: ExchangeRequestView,
    pub output: Seq<char>,
}

impl View for SendingRequest {
    type V = SendingRequestView;

    closed spec fn view(&self) -> SendingRequestView {
        SendingRequestView { request: self.request@, output: self.output@ }
    }
}

/// Third state: the response is in, with its whole body as text, and nothing
/// of it has been judged.
#[derive(Clone, Debug, PartialEq, Eq)]
pub struct ClassifyingResponse {
    status: u16,
    /// Body of the response as the server sent it.
    body: String,
    /// Output target, kept for the writing.
    output: String,
}

/// A `ClassifyingResponse` as mathematical values.
pub struct ClassifyingResponseView {
    pub status: u16,
    pub body: Seq<char>,
    pub output: Seq<char>,
}

impl View for ClassifyingResponse {
    type V = ClassifyingResponseView;

    closed spec fn view(&self) -> ClassifyingResponseView {
        ClassifyingResponseView { status: self.status, body: self.body@, output: self.output@ }
    }
}

/// State after a response was accepted: its body is to be written.
#[derive(Clone, Debug, PartialEq, Eq)]
pub struct WritingOutput {
    /// Output target: a file, or a directory for the default file.
    target: String,
    /// What is to be written: the body of the response as the server sent it.
    contents: String,
}

/// A `WritingOutput` as mathematical values.
pub struct WritingOutputView {
    pub target: Seq<char>,
    pub contents: Seq<char>,
}

impl View for WritingOutput {
    type V = WritingOutputView;

    closed spec fn view(&self) -> WritingOutputView {
        WritingOutputView { target: self.target@, contents: self.contents@ }
    }
}

/// State after the server answered with an error: the operator is to be told
/// of it.
#[derive(Clone, Debug, PartialEq, Eq)]
pub struct ReportingError {
    response: ErrorResponse,
}

impl View for ReportingError {
    type V = ErrorResponseView;

    closed spec fn view(&self) -> ErrorResponseView {
        self.response@
    }
}

/// Last state of an exchange that wrote its output.
#[derive(Clone, Debug, PartialEq, Eq)]
pub struct Done {
    /// Absolute path of the file that was written.
    path: String,
}

impl View for Done {
    type V = Seq<char>;

    closed spec fn view(&self) -> Seq<char> {
        self.path@
    }
}

/// Last state of an exchange that failed.
#[derive(Clone, Debug, PartialEq, Eq)]
pub struct Failed {
    error: ExchangeError,
}

impl View for Failed {
    type V = ExchangeErrorView;

    closed spec fn view(&self) -> ExchangeErrorView {
        self.error@
    }
}

/// Where the judgement on a response leads.
#[derive(Clone, Debug, PartialEq, Eq)]
pub enum Classified {
    /// Success status, body of the success form.
    Accepted(WritingOutput),
    /// Other status, body of the error form.
    Rejected(ReportingError),
    /// The body is not of the form that the status calls for.
    Malformed(Failed),
}

/// A `Classified` as mathematical values.
pub enum ClassifiedView {
    Accepted(WritingOutputView),
    Rejected(ErrorResponseView),
    Malformed(ExchangeErrorView),
}

impl View for Classified {
    type V = ClassifiedView;

    open spec fn view(&self) -> ClassifiedView {
        match self {
            Classified::Accepted(writing) => ClassifiedView::Accepted(writing@),
            Classified::Rejected(reporting) => ClassifiedView::Rejected(reporting@),
            Classified::Malformed(failed) => ClassifiedView::Malformed(failed@),
        }
    }
}

/// Resolving the inputs. The access token is looked at first, then the
/// refresh token; the first that is missing fails the exchange with its
/// variable's name. With both present the request stands ready.
pub open spec fn resolved(
    cli: CliView,
    access: Option<Seq<char>>,
    refresh: Option<Seq<char>>,
) -> Result<SendingRequestView, ExchangeErrorView> {
    match credential(cli.access_token_env_var_name, access) {
        Err(error) => Err(error),
        Ok(access_token) => match credential(cli.refresh_token_env_var_name, refresh) {
            Err(error) => Err(error),
            Ok(refresh_token) => Ok(
                SendingRequestView {
                    request: exchange_request(cli, access_token, refresh_token),
                    output: cli.output,
                },
            ),
        },
    }
}

/// Taking in the response: status and body are kept as they came.
pub open spec fn answered(
    sending: SendingRequestView,
    status: u16,
    body: Seq<char>,
) -> ClassifyingResponseView {
    ClassifyingResponseView { status, body, output: sending.output }
}

/// Judging the response. An accepted response leads to the writing of its
/// body, unchanged, to the output target; a server error to its report;
/// anything else to failure.
pub open spec fn classified(
    classifying: ClassifyingResponseView,
    parsed: ParsedBodyView,
) -> ClassifiedView {
    match judgement(classifying.status, parsed) {
        Ok(_) => ClassifiedView::Accepted(
            WritingOutputView { target: classifying.output, contents: classifying.body },
        ),
        Err(ExchangeErrorView::ServerError { response }) => ClassifiedView::Rejected(response),
        Err(error) => ClassifiedView::Malformed(error),
    }
}

/// The views of the state after resolving, or of the failure in its place.
pub open spec fn resolution_view(next: Result<SendingRequest, Failed>) -> Result<
    SendingRequestView,
    ExchangeErrorView,
> {
    match next {
        Ok(sending) => Ok(sending@),
        Err(failed) => Err(failed@),
    }
}

impl ResolvingInputs {
    /// An exchange at its start.
    pub fn new(cli: Cli) -> (start: ResolvingInputs)
        ensures
            start@ == cli@,
    {
        ResolvingInputs { cli }
    }

    /// The configuration, which names the two variables to read.
    pub fn cli(&self) -> (cli: &Cli)
        ensures
            cli@ == self@,
    {
        &self.cli
    }

    /// Takes what the environment holds under the two variables that the
    /// configuration names, and makes the request or fails.
    pub fn credentials(self, access: Option<String>, refresh: Option<String>) -> (next: Result<
        SendingRequest,
        Failed,
    >)
        ensures
            resolution_view(next) == resolved(self@, text_of(access), text_of(refresh)),
    {
        let access_token = match self.cli.get_access_token(access) {
            Ok(token) => token,
            Err(error) => {
                return Err(Failed { error });
            },
        };
        let refresh_token = match self.cli.get_refresh_token(refresh) {
            Ok(token) => token,
            Err(error) => {
                return Err(Failed { error });
            },
        };
        let body = JwtRequest {
            refresh_token,
            unit: self.cli.get_unit(),
            value: self.cli.get_value(),
        };
        let request = ExchangeRequest { url: self.cli.get_url(), access_token, body };
        Ok(SendingRequest { request, output: self.cli.get_output_file().to_owned() })
    }
}

impl SendingRequest {
    /// The request to send.
    pub fn request(&self) -> (request: &ExchangeRequest)
        ensures
            request@ == self@.request,
    {
        &self.request
    }

    /// The output target.
    pub fn output(&self) -> (output: &str)
        ensures
            output@ == self@.output,
    {
        self.output.as_str()
    }

    /// The response came: its status, and its body read to the end as text.
    pub fn response(self, status: u16, body: String) -> (next: ClassifyingResponse)
        ensures
            next@ == answered(self@, status, body@),
    {
        ClassifyingResponse { status, body, output: self.output }
    }

    /// The request could not be sent, or the response could not be read.
    pub fn transport_failed(self) -> (next: Failed)
        ensures
            next@ == ExchangeErrorView::TransportFailure,
    {
        Failed { error: ExchangeError::TransportFailure }
    }
}

impl ClassifyingResponse {
    /// The status of the response.
    pub fn status(&self) -> (status: u16)
        ensures
            status == self@.status,
    {
        self.status
    }

    /// The body of the response, as the server sent it.
    pub fn body(&self) -> (body: &str)
        ensures
            body@ == self@.body,
    {
        self.body.as_str()
    }

    /// The output target.
    pub fn output(&self) -> (output: &str)
        ensures
            output@ == self@.output,
    {
        self.output.as_str()
    }

    /// The form in which the body is to be parsed.
    pub fn schema(&self) -> (schema: Schema)
        ensures
            schema == schema_for(self@.status),
    {
        expected_schema(self.status)
    }

    /// Takes what parsing the body gave, and judges the response.
    pub fn parsed(self, parsed: ParsedBody) -> (next: Classified)
        ensures
            next@ == classified(self@, parsed@),
    {
        match classify(self.status, parsed) {
            Ok(_) => Classified::Accepted(
                WritingOutput { target: self.output, contents: self.body },
            ),
            Err(ExchangeError::ServerError { response }) => Classified::Rejected(
                ReportingError { response },
            ),
            Err(error) => Classified::Malformed(Failed { error }),
        }
    }
}

impl WritingOutput {
    /// The output target: a file, or a directory for the default file.
    pub fn target(&self) -> (target: &str)
        ensures
            target@ == self@.target,
    {
        self.target.as_str()
    }

    /// What is to be written.
    pub fn contents(&self) -> (contents: &str)
        ensures
            contents@ == self@.contents,
    {
        self.contents.as_str()
    }

    /// The path of the file to write, given whether the output target names an
    /// existing directory.
    pub fn path(&self, target_is_directory: bool) -> (path: String)
        ensures
            path@ == output_path(self@.target, target_is_directory),
    {
        resolve_output_path(self.target.as_str(), target_is_directory)
    }

    /// The file was written, and this is its absolute path.
    pub fn written(self, absolute_path: String) -> (next: Done)
        ensures
            next@ == absolute_path@,
    {
        Done { path: absolute_path }
    }

    /// The file could not be written, or its absolute path not found.
    pub fn write_failed(self) -> (next: Failed)
        ensures
            next@ == ExchangeErrorView::OutputWriteFailure,
    {
        Failed { error: ExchangeError::OutputWriteFailure }
    }
}

impl ReportingError {
    /// The error that the server answered with.
    pub fn response(&self) -> (response: &ErrorResponse)
        ensures
            response@ == self@,
    {
        &self.response
    }

    /// The operator was told of the server's error.
    pub fn reported(self) -> (next: Failed)
        ensures
            next@ == (ExchangeErrorView::ServerError { response: self@ }),
    {
        Failed { error: ExchangeError::ServerError { response: self.response } }
    }
}

impl Done {
    /// The absolute path of the file that was written.
    pub fn path(&self) -> (path: &str)
        ensures
            path@ == self@,
    {
        self.path.as_str()
    }

    /// The exit code of the process: success.
    pub fn exit_code(&self) -> (code: i32)
        ensures
            code == EXIT_SUCCESS,
    {
        EXIT_SUCCESS
    }
}

impl Failed {
    /// Why the exchange failed.
    pub fn error(&self) -> (error: &ExchangeError)
        ensures
            error@ == self@,
    {
        &self.error
    }

    /// The exit code of the process: the same for every failure.
    pub fn exit_code(&self) -> (code: i32)
        ensures
            code == EXIT_FAILURE,
    {
        EXIT_FAILURE
    }
}

} // verus!
