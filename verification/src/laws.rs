//! What holds of every exchange, proved from the steps of the workflow.

use crate::config::CliView;
use crate::error::{ExchangeErrorView, EXIT_FAILURE, EXIT_SUCCESS};
use crate::output::{output_path, DEFAULT_FILE_NAME};
use crate::request::exchange_request;
use crate::response::{schema_for, success_status, ParsedBodyView, Schema};
use crate::wire::{ErrorResponseView, JwtResponseView};
use crate::workflow::{
    answered, classified, resolved, ClassifiedView, ClassifyingResponseView, SendingRequestView,
    WritingOutputView,
};
use vstd::prelude::*;

verus! {

/// With both credentials present, a response in the success range whose body
/// has the success form leads to the writing of that body, exactly as the
/// server sent it, to the output target of the configuration. What the body
/// parsed into plays no part in what is written.
pub proof fn accepted_body_is_written_unchanged(
    cli: CliView,
    access_token: Seq<char>,
    refresh_token: Seq<char>,
    status: u16,
    body: Seq<char>,
    response: JwtResponseView,
)
    requires
        success_status(status),
    ensures
        resolved(cli, Some(access_token), Some(refresh_token)) matches Ok(sending) && classified(
            answered(sending, status, body),
            ParsedBodyView::Success(response),
        ) == ClassifiedView::Accepted(WritingOutputView { target: cli.output, contents: body }),
{
}

/// A request is made exactly when both credentials are present. When one is
/// missing the exchange fails at once, naming the variable of the access
/// token if that is missing and the variable of the refresh token otherwise:
/// there is no state from which a request could be sent.
pub proof fn request_needs_both_credentials(
    cli: CliView,
    access: Option<Seq<char>>,
    refresh: Option<Seq<char>>,
)
    ensures
        resolved(cli, access, refresh) is Ok <==> access is Some && refresh is Some,
        access is None ==> resolved(cli, access, refresh) == Err::<
            SendingRequestView,
            ExchangeErrorView,
        >(ExchangeErrorView::MissingCredential { variable: cli.access_token_env_var_name }),
        access is Some && refresh is None ==> resolved(cli, access, refresh) == Err::<
            SendingRequestView,
            ExchangeErrorView,
        >(ExchangeErrorView::MissingCredential { variable: cli.refresh_token_env_var_name }),
        access is Some && refresh is Some ==> resolved(cli, access, refresh) == Ok::<
            SendingRequestView,
            ExchangeErrorView,
        >(
            SendingRequestView {
                request: exchange_request(cli, access->0, refresh->0),
                output: cli.output,
            },
        ),
{
}

/// A response outside the success range whose body has the error form leads
/// to the report of that body, with every field as it was parsed, and never
/// to the writing of anything. The exit code of a failure differs from that
/// of success.
pub proof fn server_error_is_reported(
    classifying: ClassifyingResponseView,
    response: ErrorResponseView,
)
    requires
        !success_status(classifying.status),
    ensures
        classified(classifying, ParsedBodyView::Error(response)) == ClassifiedView::Rejected(
            response,
        ),
        EXIT_FAILURE != EXIT_SUCCESS,
{
}

/// One form goes with each status, and a body parsed in the other form is
/// never accepted nor reported: the response is then malformed.
pub proof fn body_must_match_status(classifying: ClassifyingResponseView, parsed: ParsedBodyView)
    ensures
        classified(classifying, parsed) is Accepted <==> schema_for(classifying.status)
            == Schema::Success && parsed is Success,
        classified(classifying, parsed) is Rejected <==> schema_for(classifying.status)
            == Schema::Error && parsed is Error,
        classified(classifying, parsed) is Malformed ==> classified(classifying, parsed)
            == ClassifiedView::Malformed(ExchangeErrorView::MalformedResponse),
{
}

/// An output target that names a directory stands for the default file
/// directly below it; any other target stands for itself.
pub proof fn output_goes_to_target_or_below_it(target: Seq<char>)
    ensures
        output_path(target, false) == target,
        output_path(target, true).len() == target.len() + 1 + DEFAULT_FILE_NAME@.len(),
        output_path(target, true).subrange(0, target.len() as int) == target,
        output_path(target, true)[target.len() as int] == '/',
        output_path(target, true).subrange(
            target.len() as int + 1,
            output_path(target, true).len() as int,
        ) == DEFAULT_FILE_NAME@,
{
    reveal_strlit("/");
    let path = output_path(target, true);
    assert(path =~= target + "/"@ + DEFAULT_FILE_NAME@);
    assert(path.subrange(0, target.len() as int) =~= target);
    assert(path.subrange(target.len() as int + 1, path.len() as int) =~= DEFAULT_FILE_NAME@);
}

} // verus!
