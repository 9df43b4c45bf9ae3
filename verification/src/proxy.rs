//! Relay of one typed request to the sidecar: making sure a sidecar runs,
//! the address to ask, and the reading of what came back.

use vstd::prelude::*;
use crate::error::{failure_view, SidecarError, SidecarErrorView};
use crate::config::Config;
use crate::health::{is_success, is_success_status};
use crate::supervisor::{initial_session, next_session, outcome_of, request_of, start_python_sidecar,
    Action, ActionView, Event, EventView, Session, SessionView};
use crate::text::{decimal, decimal_text};

verus! {

/// `serde_json::Value`: a decoded JSON document. It is passed on as it came
/// from the decoder; nothing here looks inside.
#[verifier::external_type_specification]
#[verifier::external_body]
pub struct ExJsonValue(serde_json::Value);

/// `serde_json::Error`: the decoder's account of why a body is no JSON
/// document. Only its presence is used.
#[verifier::external_type_specification]
#[verifier::external_body]
pub struct ExJsonError(serde_json::Error);

/// What `serde_json::from_slice` makes of `body` when asked for a
/// `serde_json::Value`: the document that `body` is the text of, or nothing
/// where it is the text of none. The decoder reads nothing but the bytes it
/// is given, so equal bodies have the same document.
pub uninterp spec fn json_document(body: Seq<u8>) -> Option<serde_json::Value>;

/// Calls `serde_json::from_slice` for a `serde_json::Value`. Believed, not
/// proved: the call succeeds exactly on the bodies that `json_document`
/// has a document for, and then returns that document.
#[verifier::external_body]
fn decode_json(body: &[u8]) -> (decoded: Result<serde_json::Value, serde_json::Error>)
    ensures
        decoded matches Ok(value) ==> json_document(body@) == Some(value),
        decoded is Err ==> json_document(body@) is None,
{
    serde_json::from_slice(body)
}

/// What is left of a decoding attempt once the decoder's own account of a
/// failure is dropped.
pub open spec fn document_of(
    decoded: Result<serde_json::Value, serde_json::Error>,
) -> Option<serde_json::Value> {
    match decoded {
        Ok(value) => Some(value),
        Err(_) => None,
    }
}

/// The result of a data call that was answered with `status` and a body
/// holding `document`.
pub open spec fn response_outcome(status: u16, document: Option<serde_json::Value>) -> Result<
    serde_json::Value,
    SidecarErrorView,
> {
    if !is_success_status(status) {
        Err(SidecarErrorView::UpstreamStatusError(status))
    } else {
        match document {
            Some(value) => Ok(value),
            None => Err(SidecarErrorView::DecodeError),
        }
    }
}

/// Reads an answered data call whose body has already been through the
/// decoder: a status outside 200..=299 is an upstream failure whatever the
/// body held; with a success status the decoder's verdict stands, and the
/// document is passed on untouched.
pub fn classify_response(
    status: u16,
    decoded: Result<serde_json::Value, serde_json::Error>,
) -> (result: Result<serde_json::Value, SidecarError>)
    ensures
        failure_view(result) == response_outcome(status, document_of(decoded)),
{
    if !is_success(status) {
        Err(SidecarError::UpstreamStatusError(status))
    } else {
        match decoded {
            Ok(value) => Ok(value),
            Err(_) => Err(SidecarError::DecodeError),
        }
    }
}

/// Reads an answered data call from its status and raw body.
pub fn interpret_response(status: u16, body: &[u8]) -> (result: Result<
    serde_json::Value,
    SidecarError,
>)
    ensures
        failure_view(result) == response_outcome(status, json_document(body@)),
{
    if !is_success(status) {
        Err(SidecarError::UpstreamStatusError(status))
    } else {
        let decoded = decode_json(body);
        classify_response(status, decoded)
    }
}

/// How long a data call may take, in milliseconds.
pub const DATA_TIMEOUT_MILLIS: u64 = 10000;

/// One request to relay: which endpoint of the sidecar to ask, and how long
/// to wait for the answer.
#[derive(Debug, PartialEq, Eq)]
pub struct ProxyRequest {
    /// The endpoint's path, without the leading `/`.
    pub endpoint_path: String,
    /// The time allowed for the whole exchange, in milliseconds.
    pub timeout_millis: u64,
}

/// A `ProxyRequest` with its path as a character sequence.
pub struct ProxyRequestView {
    pub endpoint_path: Seq<char>,
    pub timeout_millis: u64,
}

impl View for ProxyRequest {
    type V = ProxyRequestView;

    open spec fn view(&self) -> ProxyRequestView {
        ProxyRequestView {
            endpoint_path: self.endpoint_path@,
            timeout_millis: self.timeout_millis,
        }
    }
}

/// The request for the trading history.
pub open spec fn trading_history() -> ProxyRequestView {
    ProxyRequestView { endpoint_path: "trading-history"@, timeout_millis: DATA_TIMEOUT_MILLIS }
}

/// The request for the trading history.
pub fn trading_history_request() -> (request: ProxyRequest)
    ensures
        request@ == trading_history(),
{
    ProxyRequest {
        endpoint_path: "trading-history".to_owned(),
        timeout_millis: DATA_TIMEOUT_MILLIS,
    }
}

/// The address of `endpoint` on a sidecar listening on `port`.
pub open spec fn endpoint_url_text(port: u16, endpoint: Seq<char>) -> Seq<char> {
    "http://localhost:"@ + decimal_text(port as nat) + "/"@ + endpoint
}

/// The address to send a request for `endpoint` to, for a sidecar listening
/// on `port`.
pub fn endpoint_url(port: u16, endpoint: &str) -> (url: String)
    ensures
        url@ == endpoint_url_text(port, endpoint@),
{
    let mut url = "http://localhost:".to_owned();
    let digits = decimal(port as u64);
    url.append(digits.as_str());
    url.append("/");
    url.append(endpoint);
    url
}

/// What became of a request that was sent.
#[derive(Debug, PartialEq, Eq)]
pub enum HttpAnswer {
    /// No response: the text is the transport's account of why.
    Failed(String),
    /// A response, with its status code and its whole body.
    Received { status: u16, body: Vec<u8> },
}

/// An `HttpAnswer` with its contents as sequences.
pub enum HttpAnswerView {
    Failed(Seq<char>),
    Received { status: u16, body: Seq<u8> },
}

impl View for HttpAnswer {
    type V = HttpAnswerView;

    open spec fn view(&self) -> HttpAnswerView {
        match *self {
            HttpAnswer::Failed(detail) => HttpAnswerView::Failed(detail@),
            HttpAnswer::Received { status, body } => HttpAnswerView::Received {
                status,
                body: body@,
            },
        }
    }
}

/// The result of a data call, given what became of its request.
pub open spec fn answer_outcome(answer: HttpAnswerView) -> Result<
    serde_json::Value,
    SidecarErrorView,
> {
    match answer {
        HttpAnswerView::Failed(detail) => Err(SidecarErrorView::TransportError(detail)),
        HttpAnswerView::Received { status, body } => response_outcome(
            status,
            json_document(body),
        ),
    }
}

/// Reads what became of a data call's request: no response is a transport
/// failure; a response is read by `interpret_response`.
pub fn interpret_answer(answer: HttpAnswer) -> (result: Result<serde_json::Value, SidecarError>)
    ensures
        failure_view(result) == answer_outcome(answer@),
{
    match answer {
        HttpAnswer::Failed(detail) => Err(SidecarError::TransportError(detail)),
        HttpAnswer::Received { status, body } => interpret_response(status, body.as_slice()),
    }
}

/// What the host is asked to do next on behalf of a relayed call.
#[derive(Debug, PartialEq, Eq)]
pub enum ProxyAction {
    /// Carry out this request of the reuse-or-launch protocol.
    Sidecar(Action),
    /// Send one GET to `url`, giving up after `timeout_millis`, and read the
    /// whole body of the response.
    Get { url: String, timeout_millis: u64 },
    /// Nothing: the call is over and its result can be taken.
    Done,
}

/// A `ProxyAction` with its texts as character sequences.
pub enum ProxyActionView {
    Sidecar(ActionView),
    Get { url: Seq<char>, timeout_millis: u64 },
    Done,
}

impl View for ProxyAction {
    type V = ProxyActionView;

    open spec fn view(&self) -> ProxyActionView {
        match *self {
            ProxyAction::Sidecar(action) => ProxyActionView::Sidecar(action@),
            ProxyAction::Get { url, timeout_millis } => ProxyActionView::Get {
                url: url@,
                timeout_millis,
            },
            ProxyAction::Done => ProxyActionView::Done,
        }
    }
}

/// What the host reports after carrying out a request of a relayed call.
#[derive(Debug, PartialEq, Eq)]
pub enum ProxyEvent {
    /// After `Sidecar`: the report the inner request calls for.
    Sidecar(Event),
    /// After `Get`: what became of the request.
    Answered(HttpAnswer),
}

/// A `ProxyEvent` with its contents as sequences.
pub enum ProxyEventView {
    Sidecar(EventView),
    Answered(HttpAnswerView),
}

impl View for ProxyEvent {
    type V = ProxyEventView;

    open spec fn view(&self) -> ProxyEventView {
        match *self {
            ProxyEvent::Sidecar(event) => ProxyEventView::Sidecar(event@),
            ProxyEvent::Answered(answer) => ProxyEventView::Answered(answer@),
        }
    }
}

/// How far a relayed call has come.
pub enum ProxyStageView {
    /// Making sure a sidecar runs.
    Ensuring(SessionView),
    /// Waiting for the sidecar on `port` to answer the request.
    Requesting { port: u16 },
    /// Over, with this result.
    Finished(Result<serde_json::Value, SidecarErrorView>),
}

/// A relayed call in progress, as its contracts see it.
pub struct ProxyCallView {
    pub request: ProxyRequestView,
    pub stage: ProxyStageView,
}

/// A relayed call that has just begun.
pub open spec fn initial_call(config: Config, request: ProxyRequestView) -> ProxyCallView {
    ProxyCallView { request, stage: ProxyStageView::Ensuring(initial_session(config)) }
}

/// The request a relayed call has outstanding.
pub open spec fn call_request_of(call: ProxyCallView) -> ProxyActionView {
    match call.stage {
        ProxyStageView::Ensuring(session) => ProxyActionView::Sidecar(request_of(session)),
        ProxyStageView::Requesting { port } => ProxyActionView::Get {
            url: endpoint_url_text(port, call.request.endpoint_path),
            timeout_millis: call.request.timeout_millis,
        },
        ProxyStageView::Finished(_) => ProxyActionView::Done,
    }
}

/// What a relayed call returned, once it is over.
pub open spec fn call_result_of(call: ProxyCallView) -> Option<
    Result<serde_json::Value, SidecarErrorView>,
> {
    match call.stage {
        ProxyStageView::Finished(result) => Some(result),
        _ => None,
    }
}

/// The stage that follows when the reuse-or-launch protocol has moved to
/// `session`: the request goes out once a port is there, and a failure to
/// get one ends the call.
pub open spec fn stage_after_ensuring(session: SessionView) -> ProxyStageView {
    match outcome_of(session) {
        None => ProxyStageView::Ensuring(session),
        Some(Ok(port)) => ProxyStageView::Requesting { port },
        Some(Err(error)) => ProxyStageView::Finished(Err(error)),
    }
}

/// The call that `event` turns `call` into. A report that does not answer
/// the outstanding request changes nothing.
pub open spec fn next_call(call: ProxyCallView, event: ProxyEventView) -> ProxyCallView {
    let stage = match (call.stage, event) {
        (ProxyStageView::Ensuring(session), ProxyEventView::Sidecar(inner)) => {
            stage_after_ensuring(next_session(session, inner))
        },
        (ProxyStageView::Requesting { port }, ProxyEventView::Answered(answer)) => {
            ProxyStageView::Finished(answer_outcome(answer))
        },
        (stage, _) => stage,
    };
    ProxyCallView { request: call.request, stage }
}

#[derive(Debug)]
enum ProxyStage {
    Ensuring(Session),
    Requesting { port: u16 },
    Finished(Result<serde_json::Value, SidecarError>),
}

impl View for ProxyStage {
    type V = ProxyStageView;

    closed spec fn view(&self) -> ProxyStageView {
        match *self {
            ProxyStage::Ensuring(session) => ProxyStageView::Ensuring(session@),
            ProxyStage::Requesting { port } => ProxyStageView::Requesting { port },
            ProxyStage::Finished(result) => ProxyStageView::Finished(failure_view(result)),
        }
    }
}

/// One relayed call, in progress or over.
#[derive(Debug)]
pub struct ProxyCall {
    request: ProxyRequest,
    stage: ProxyStage,
}

impl View for ProxyCall {
    type V = ProxyCallView;

    closed spec fn view(&self) -> ProxyCallView {
        ProxyCallView { request: self.request@, stage: self.stage@ }
    }
}

/// A result with its failure, if it is one, taken by its view.
pub open spec fn result_view(result: Option<Result<serde_json::Value, SidecarError>>) -> Option<
    Result<serde_json::Value, SidecarErrorView>,
> {
    match result {
        Some(result) => Some(failure_view(result)),
        None => None,
    }
}

impl ProxyCall {
    /// Begins a call that relays `request`. Its first request to the host is
    /// the first of the reuse-or-launch protocol.
    pub fn new(config: Config, request: ProxyRequest) -> (call: ProxyCall)
        ensures
            call@ == initial_call(config, request@),
    {
        ProxyCall { request, stage: ProxyStage::Ensuring(Session::new(config)) }
    }

    /// The request that is outstanding.
    pub fn request(&self) -> (action: ProxyAction)
        ensures
            action@ == call_request_of(self@),
    {
        match &self.stage {
            ProxyStage::Ensuring(session) => ProxyAction::Sidecar(session.request()),
            ProxyStage::Requesting { port } => ProxyAction::Get {
                url: endpoint_url(*port, self.request.endpoint_path.as_str()),
                timeout_millis: self.request.timeout_millis,
            },
            ProxyStage::Finished(_) => ProxyAction::Done,
        }
    }

    /// Whether the call is over.
    pub fn is_done(&self) -> (done: bool)
        ensures
            done == call_result_of(self@).is_some(),
    {
        match &self.stage {
            ProxyStage::Finished(_) => true,
            _ => false,
        }
    }

    /// Ends the call and hands out what it returned: `None` if it was still
    /// in progress.
    pub fn into_result(self) -> (result: Option<Result<serde_json::Value, SidecarError>>)
        ensures
            result_view(result) == call_result_of(self@),
    {
        match self.stage {
            ProxyStage::Finished(result) => Some(result),
            _ => None,
        }
    }
}

/// Moves a relayed call on by one report from the host, and says what the
/// host is to do next.
///
/// The call first runs the reuse-or-launch protocol to its end. If that
/// fails, the call fails the same way. Otherwise one GET goes to the
/// request's endpoint on the port the protocol returned, and the call ends
/// with the reading of its answer: a transport failure, an upstream status,
/// a body that does not decode, or the decoded document as it is.
pub fn get_trading_history(call: ProxyCall, event: ProxyEvent) -> (next: (ProxyCall, ProxyAction))
    ensures
        next.0@ == next_call(call@, event@),
        next.1@ == call_request_of(next.0@),
{
    let request = call.request;
    let stage = match (call.stage, event) {
        (ProxyStage::Ensuring(session), ProxyEvent::Sidecar(inner)) => {
            let (moved, _) = start_python_sidecar(session, inner);
            match moved.outcome() {
                None => ProxyStage::Ensuring(moved),
                Some(Ok(port)) => ProxyStage::Requesting { port },
                Some(Err(error)) => ProxyStage::Finished(Err(error)),
            }
        },
        (ProxyStage::Requesting { port }, ProxyEvent::Answered(answer)) => ProxyStage::Finished(
            interpret_answer(answer),
        ),
        (stage, _) => stage,
    };
    let moved = ProxyCall { request, stage };
    let action = moved.request();
    (moved, action)
}

} // verus!
