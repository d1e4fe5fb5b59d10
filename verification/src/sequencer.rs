//! Sequencing the two remote calls of an export: the token exchange, then the
//! report fetch, stopping at the first failure.
//!
//! The functions here decide; the caller sends each request they ask for and
//! hands back what came of it as a [`CallResult`].

use vstd::prelude::*;
use vstd::string::*;
use crate::config::{ExportConfig, ExportConfigView, report_url_of, token_exchange_url_of};
use crate::decoder::{
    RemoteErrorPayload, decode_parsed, decoded_message, json_object_members, message_of,
    parse_payload, payload_message,
};

verus! {

/// How an export attempt ended.
#[derive(Clone, Debug, PartialEq, Eq)]
pub enum ExportOutcome {
    /// The report was fetched; the content is the body of the second response.
    Success(String),
    /// The attempt stopped; the message is for the user.
    Failure(String),
}

/// Mathematical value of an [`ExportOutcome`].
pub enum OutcomeView {
    Success(Seq<char>),
    Failure(Seq<char>),
}

impl View for ExportOutcome {
    type V = OutcomeView;

    open spec fn view(&self) -> OutcomeView {
        match self {
            ExportOutcome::Success(content) => OutcomeView::Success(content@),
            ExportOutcome::Failure(message) => OutcomeView::Failure(message@),
        }
    }
}

/// What came of one remote call. The three failures carry the text of the
/// transport's error.
#[derive(Clone, Debug, PartialEq, Eq)]
pub enum CallResult {
    /// The request could not be built.
    BuildFailed(String),
    /// The request could not be sent.
    SendFailed(String),
    /// The response body could not be read as text.
    ReadFailed(String),
    /// A response arrived and its body was read.
    Response { status: u16, body: String },
}

/// Mathematical value of a [`CallResult`].
pub enum CallView {
    BuildFailed(Seq<char>),
    SendFailed(Seq<char>),
    ReadFailed(Seq<char>),
    Response { status: u16, body: Seq<char> },
}

impl View for CallResult {
    type V = CallView;

    open spec fn view(&self) -> CallView {
        match self {
            CallResult::BuildFailed(e) => CallView::BuildFailed(e@),
            CallResult::SendFailed(e) => CallView::SendFailed(e@),
            CallResult::ReadFailed(e) => CallView::ReadFailed(e@),
            CallResult::Response { status, body } => CallView::Response {
                status: *status,
                body: body@,
            },
        }
    }
}

/// A request for the caller to send.
#[derive(Clone, Debug, PartialEq, Eq)]
pub struct HttpRequest {
    pub method: String,
    pub url: String,
    pub content_type: String,
    pub body: String,
}

/// Mathematical value of an [`HttpRequest`].
pub struct RequestView {
    pub method: Seq<char>,
    pub url: Seq<char>,
    pub content_type: Seq<char>,
    pub body: Seq<char>,
}

impl View for HttpRequest {
    type V = RequestView;

    open spec fn view(&self) -> RequestView {
        RequestView {
            method: self.method@,
            url: self.url@,
            content_type: self.content_type@,
            body: self.body@,
        }
    }
}

/// The two remote calls of an export, in their order.
#[derive(Clone, Copy, Debug, PartialEq, Eq, Structural)]
pub enum ExportStage {
    /// The call that redeems the authorization code.
    TokenExchange,
    /// The call that fetches the report.
    ReportFetch,
}

/// What the caller does next.
#[derive(Clone, Debug, PartialEq, Eq)]
pub enum ExportStep {
    /// Send this request and report what came of it, together with the
    /// stage, to [`after_call`].
    Send { stage: ExportStage, request: HttpRequest },
    /// The attempt is over. On a failure, `reset_view` says whether the view
    /// goes back to the initial route after the message was shown.
    Finish { outcome: ExportOutcome, reset_view: bool },
}

/// Mathematical value of an [`ExportStep`].
pub enum StepView {
    Send { stage: ExportStage, request: RequestView },
    Finish { outcome: OutcomeView, reset_view: bool },
}

impl View for ExportStep {
    type V = StepView;

    open spec fn view(&self) -> StepView {
        match self {
            ExportStep::Send { stage, request } => StepView::Send {
                stage: *stage,
                request: request@,
            },
            ExportStep::Finish { outcome, reset_view } => StepView::Finish {
                outcome: outcome@,
                reset_view: *reset_view,
            },
        }
    }
}

/// Both calls are a POST of an empty plain-text body.
pub open spec fn post_request(url: Seq<char>) -> RequestView {
    RequestView { method: "POST"@, url, content_type: "text/plain"@, body: Seq::empty() }
}

/// A call succeeded when a response with status 200 arrived.
pub open spec fn succeeded(call: CallView) -> bool {
    call matches CallView::Response { status, .. } && status == 200
}

/// The structured error message in the body of a response, if the body is a
/// structured payload.
pub open spec fn payload_in(call: CallView) -> Option<Seq<char>> {
    match call {
        CallView::Response { body, .. } => payload_message(json_object_members(body)),
        _ => None,
    }
}

/// The message for a call that did not succeed, where `payload` is the
/// structured error message found in the response body, if any.
pub open spec fn failure_message(call: CallView, payload: Option<Seq<char>>) -> Seq<char> {
    match call {
        CallView::BuildFailed(e) => "Failed to build request: "@ + e,
        CallView::SendFailed(e) => "Failed to execute (send) request: "@ + e,
        CallView::ReadFailed(e) => "Failed to read response: "@ + e,
        CallView::Response { body, .. } => decoded_message(body, payload),
    }
}

/// The step after the token exchange. Success leads to the report request.
/// Every failure ends the attempt and resets the view, except a response
/// whose body is a structured payload: that one leaves the view where it is.
pub open spec fn after_token_exchange_of(
    config: ExportConfigView,
    code: Seq<char>,
    before: Seq<char>,
    after: Seq<char>,
    call: CallView,
    payload: Option<Seq<char>>,
) -> StepView {
    if succeeded(call) {
        StepView::Send {
            stage: ExportStage::ReportFetch,
            request: post_request(report_url_of(config, code, before, after)),
        }
    } else {
        StepView::Finish {
            outcome: OutcomeView::Failure(failure_message(call, payload)),
            reset_view: !(call is Response && payload is Some),
        }
    }
}

/// The step after the report fetch. Success ends the attempt with the body as
/// content; every failure ends it and resets the view.
pub open spec fn after_report_fetch_of(call: CallView, payload: Option<Seq<char>>) -> StepView {
    match call {
        CallView::Response { status, body } if status == 200 => StepView::Finish {
            outcome: OutcomeView::Success(body),
            reset_view: false,
        },
        _ => StepView::Finish {
            outcome: OutcomeView::Failure(failure_message(call, payload)),
            reset_view: true,
        },
    }
}

/// The first step of an export: the token exchange for `code`.
pub open spec fn first_step_of(config: ExportConfigView, code: Seq<char>) -> StepView {
    StepView::Send {
        stage: ExportStage::TokenExchange,
        request: post_request(token_exchange_url_of(config, code)),
    }
}

/// The step after the call of `stage` came back as `call`.
pub open spec fn after_call_of(
    stage: ExportStage,
    config: ExportConfigView,
    code: Seq<char>,
    before: Seq<char>,
    after: Seq<char>,
    call: CallView,
    payload: Option<Seq<char>>,
) -> StepView {
    match stage {
        ExportStage::TokenExchange => after_token_exchange_of(
            config,
            code,
            before,
            after,
            call,
            payload,
        ),
        ExportStage::ReportFetch => after_report_fetch_of(call, payload),
    }
}

/// The outcome of a whole attempt whose first call gave `first` and whose
/// second call gives `second` if it is made.
pub open spec fn export_outcome_of(
    config: ExportConfigView,
    code: Seq<char>,
    before: Seq<char>,
    after: Seq<char>,
    first: CallView,
    first_payload: Option<Seq<char>>,
    second: CallView,
    second_payload: Option<Seq<char>>,
) -> OutcomeView {
    match after_token_exchange_of(config, code, before, after, first, first_payload) {
        StepView::Finish { outcome, .. } => outcome,
        StepView::Send { .. } => match after_report_fetch_of(second, second_payload) {
            StepView::Finish { outcome, .. } => outcome,
            StepView::Send { .. } => OutcomeView::Failure(Seq::empty()),
        },
    }
}

impl HttpRequest {
    /// A POST of an empty plain-text body to `url`.
    pub fn post(url: String) -> (request: HttpRequest)
        ensures
            request@ == post_request(url@),
    {
        HttpRequest {
            method: String::from_str("POST"),
            url,
            content_type: String::from_str("text/plain"),
            body: String::new(),
        }
    }
}

/// The first request of an export: the token exchange for `code`.
pub fn begin_export(config: &ExportConfig, code: &str) -> (step: ExportStep)
    ensures
        step@ == first_step_of(config@, code@),
{
    ExportStep::Send {
        stage: ExportStage::TokenExchange,
        request: HttpRequest::post(config.token_exchange_url(code)),
    }
}

/// The message for a call that did not succeed, given the payload that its
/// body parsed to.
pub fn failure_message_for(call: CallResult, payload: Option<RemoteErrorPayload>) -> (message:
    String)
    ensures
        message@ == failure_message(call@, message_of(payload)),
{
    match call {
        CallResult::BuildFailed(e) => {
            let mut message = String::from_str("Failed to build request: ");
            message.append(e.as_str());
            message
        },
        CallResult::SendFailed(e) => {
            let mut message = String::from_str("Failed to execute (send) request: ");
            message.append(e.as_str());
            message
        },
        CallResult::ReadFailed(e) => {
            let mut message = String::from_str("Failed to read response: ");
            message.append(e.as_str());
            message
        },
        CallResult::Response { status, body } => decode_parsed(body.as_str(), payload),
    }
}

/// Whether `call` is a response with status 200.
pub fn call_succeeded(call: &CallResult) -> (ok: bool)
    ensures
        ok == succeeded(call@),
{
    match call {
        CallResult::Response { status, .. } => *status == 200,
        _ => false,
    }
}

/// Parses the body of a response as a structured payload; a call without a
/// response has none.
pub fn payload_of_call(call: &CallResult) -> (payload: Option<RemoteErrorPayload>)
    ensures
        message_of(payload) == payload_in(call@),
{
    match call {
        CallResult::Response { body, .. } => parse_payload(body.as_str()),
        _ => None,
    }
}

/// The step after the token exchange, given the payload that the response
/// body parsed to.
pub fn token_exchange_step(
    config: &ExportConfig,
    code: &str,
    before: &str,
    after: &str,
    call: CallResult,
    payload: Option<RemoteErrorPayload>,
) -> (step: ExportStep)
    ensures
        step@ == after_token_exchange_of(
            config@,
            code@,
            before@,
            after@,
            call@,
            message_of(payload),
        ),
{
    if call_succeeded(&call) {
        ExportStep::Send {
            stage: ExportStage::ReportFetch,
            request: HttpRequest::post(config.report_url(code, before, after)),
        }
    } else {
        let keeps_view = match (&call, &payload) {
            (CallResult::Response { .. }, Some(_)) => true,
            _ => false,
        };
        ExportStep::Finish {
            outcome: ExportOutcome::Failure(failure_message_for(call, payload)),
            reset_view: !keeps_view,
        }
    }
}

/// The step after the report fetch, given the payload that the response body
/// parsed to.
pub fn report_fetch_step(call: CallResult, payload: Option<RemoteErrorPayload>) -> (step:
    ExportStep)
    ensures
        step@ == after_report_fetch_of(call@, message_of(payload)),
        step is Finish,
{
    match call {
        CallResult::Response { status, body } => {
            if status == 200 {
                ExportStep::Finish { outcome: ExportOutcome::Success(body), reset_view: false }
            } else {
                ExportStep::Finish {
                    outcome: ExportOutcome::Failure(decode_parsed(body.as_str(), payload)),
                    reset_view: true,
                }
            }
        },
        other => ExportStep::Finish {
            outcome: ExportOutcome::Failure(failure_message_for(other, payload)),
            reset_view: true,
        },
    }
}

/// The step after the token exchange came back as `call`.
pub fn after_token_exchange(
    config: &ExportConfig,
    code: &str,
    before: &str,
    after: &str,
    call: CallResult,
) -> (step: ExportStep)
    ensures
        step@ == after_token_exchange_of(
            config@,
            code@,
            before@,
            after@,
            call@,
            payload_in(call@),
        ),
{
    if call_succeeded(&call) {
        token_exchange_step(config, code, before, after, call, None)
    } else {
        let payload = payload_of_call(&call);
        token_exchange_step(config, code, before, after, call, payload)
    }
}

/// The step after the report fetch came back as `call`: always the end of the
/// attempt.
pub fn after_report_fetch(call: CallResult) -> (step: ExportStep)
    ensures
        step@ == after_report_fetch_of(call@, payload_in(call@)),
        step is Finish,
{
    if call_succeeded(&call) {
        report_fetch_step(call, None)
    } else {
        let payload = payload_of_call(&call);
        report_fetch_step(call, payload)
    }
}

/// The step after the call of `stage` came back as `call`. An export makes
/// at most two calls: the step after the report fetch is always the end.
pub fn after_call(
    stage: ExportStage,
    config: &ExportConfig,
    code: &str,
    before: &str,
    after: &str,
    call: CallResult,
) -> (step: ExportStep)
    ensures
        step@ == after_call_of(stage, config@, code@, before@, after@, call@, payload_in(call@)),
        step matches ExportStep::Send { stage: next, .. } ==> stage == ExportStage::TokenExchange
            && next == ExportStage::ReportFetch,
{
    match stage {
        ExportStage::TokenExchange => after_token_exchange(config, code, before, after, call),
        ExportStage::ReportFetch => after_report_fetch(call),
    }
}

/// A first call that does not come back with status 200 ends the attempt in a
/// failure, whatever the second call would give; for a response, the message
/// is the decoded body.
pub proof fn lemma_first_failure_is_final(
    config: ExportConfigView,
    code: Seq<char>,
    before: Seq<char>,
    after: Seq<char>,
    first: CallView,
    first_payload: Option<Seq<char>>,
    second: CallView,
    second_payload: Option<Seq<char>>,
)
    requires
        !succeeded(first),
    ensures
        export_outcome_of(
            config,
            code,
            before,
            after,
            first,
            first_payload,
            second,
            second_payload,
        ) == OutcomeView::Failure(failure_message(first, first_payload)),
        first matches CallView::Response { body, .. } ==> failure_message(first, first_payload)
            == decoded_message(body, first_payload),
{
}

/// Two calls that both come back with status 200 end the attempt in success
/// with the second body as content, whatever the first body held.
pub proof fn lemma_two_successes_give_second_body(
    config: ExportConfigView,
    code: Seq<char>,
    before: Seq<char>,
    after: Seq<char>,
    first_body: Seq<char>,
    first_payload: Option<Seq<char>>,
    second_body: Seq<char>,
    second_payload: Option<Seq<char>>,
)
    ensures
        export_outcome_of(
            config,
            code,
            before,
            after,
            CallView::Response { status: 200, body: first_body },
            first_payload,
            CallView::Response { status: 200, body: second_body },
            second_payload,
        ) == OutcomeView::Success(second_body),
{
}

/// A failed report fetch always resets the view; a failed token exchange
/// resets it unless the response body was a structured payload.
pub proof fn lemma_reset_after_failure(
    config: ExportConfigView,
    code: Seq<char>,
    before: Seq<char>,
    after: Seq<char>,
    call: CallView,
    payload: Option<Seq<char>>,
)
    requires
        !succeeded(call),
    ensures
        after_report_fetch_of(call, payload) matches StepView::Finish { reset_view, .. }
            && reset_view,
        after_token_exchange_of(config, code, before, after, call, payload) matches StepView::Finish {
            reset_view,
            ..
        } && (reset_view <==> !(call is Response && payload is Some)),
{
}

} // verus!
