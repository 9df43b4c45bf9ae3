use sidecar_supervisor::config::{Config, DeploymentMode, Platform};
use sidecar_supervisor::error::SidecarError;
use sidecar_supervisor::proxy::{
    classify_response, endpoint_url, get_trading_history, interpret_answer, interpret_response,
    trading_history_request, HttpAnswer, ProxyAction, ProxyCall, ProxyEvent, ProxyRequest,
    DATA_TIMEOUT_MILLIS,
};
use sidecar_supervisor::resolver::BaseDirectory;
use sidecar_supervisor::supervisor::{Action, Event};

fn config() -> Config {
    Config { mode: DeploymentMode::Packaged, platform: Platform::Other }
}

fn history() -> serde_json::Value {
    let mut trade = serde_json::Map::new();
    trade.insert("symbol".to_string(), serde_json::Value::String("ACME".to_string()));
    trade.insert("quantity".to_string(), serde_json::Value::from(3));
    let mut object = serde_json::Map::new();
    object.insert(
        "trades".to_string(),
        serde_json::Value::Array(vec![serde_json::Value::Object(trade)]),
    );
    serde_json::Value::Object(object)
}

const HISTORY: &[u8] = b"{\"trades\": [{\"symbol\": \"ACME\", \"quantity\": 3}]}";

#[test]
fn malformed_body_is_a_decode_error() {
    assert_eq!(interpret_response(200, b"{not json"), Err(SidecarError::DecodeError));
}

#[test]
fn empty_body_is_a_decode_error() {
    assert_eq!(interpret_response(200, b""), Err(SidecarError::DecodeError));
}

#[test]
fn trailing_text_is_a_decode_error() {
    assert_eq!(interpret_response(200, b"{} {}"), Err(SidecarError::DecodeError));
}

#[test]
fn well_formed_body_is_passed_on() {
    assert_eq!(interpret_response(200, HISTORY), Ok(history()));
}

#[test]
fn any_json_document_is_a_payload() {
    assert_eq!(interpret_response(200, b"null"), Ok(serde_json::Value::Null));
    assert_eq!(interpret_response(204, b"[1, 2]"), Ok(serde_json::Value::Array(vec![
        serde_json::Value::from(1),
        serde_json::Value::from(2),
    ])));
    assert_eq!(interpret_response(299, b" true "), Ok(serde_json::Value::Bool(true)));
}

#[test]
fn status_outside_2xx_is_an_upstream_error() {
    assert_eq!(interpret_response(500, HISTORY), Err(SidecarError::UpstreamStatusError(500)));
    assert_eq!(interpret_response(404, b"{not json"), Err(SidecarError::UpstreamStatusError(404)));
    assert_eq!(interpret_response(199, b"{}"), Err(SidecarError::UpstreamStatusError(199)));
    assert_eq!(interpret_response(300, b"{}"), Err(SidecarError::UpstreamStatusError(300)));
}

#[test]
fn decoder_verdict_stands_with_a_success_status() {
    assert_eq!(classify_response(200, serde_json::from_slice(HISTORY)), Ok(history()));
    assert_eq!(
        classify_response(200, serde_json::from_slice(b"{\"trades\": ")),
        Err(SidecarError::DecodeError)
    );
}

#[test]
fn status_comes_before_the_decoder_verdict() {
    assert_eq!(
        classify_response(503, serde_json::from_slice(HISTORY)),
        Err(SidecarError::UpstreamStatusError(503))
    );
    assert_eq!(
        classify_response(503, serde_json::from_slice(b"oops")),
        Err(SidecarError::UpstreamStatusError(503))
    );
}

#[test]
fn no_response_is_a_transport_error() {
    assert_eq!(
        interpret_answer(HttpAnswer::Failed("connection refused".to_string())),
        Err(SidecarError::TransportError("connection refused".to_string()))
    );
}

#[test]
fn response_is_read_by_status_and_body() {
    assert_eq!(
        interpret_answer(HttpAnswer::Received { status: 200, body: HISTORY.to_vec() }),
        Ok(history())
    );
    assert_eq!(
        interpret_answer(HttpAnswer::Received { status: 500, body: Vec::new() }),
        Err(SidecarError::UpstreamStatusError(500))
    );
}

#[test]
fn endpoint_url_names_port_and_endpoint() {
    assert_eq!(endpoint_url(8765, "trading-history"), "http://localhost:8765/trading-history");
    assert_eq!(endpoint_url(8799, "a/b"), "http://localhost:8799/a/b");
    assert_eq!(endpoint_url(1, ""), "http://localhost:1/");
}

#[test]
fn trading_history_gets_ten_seconds() {
    assert_eq!(
        trading_history_request(),
        ProxyRequest { endpoint_path: "trading-history".to_string(), timeout_millis: 10000 }
    );
    assert_eq!(DATA_TIMEOUT_MILLIS, 10000);
}

/// Runs a call against a host with a healthy sidecar cached on 8770.
fn relay_with_cached_sidecar(answer: HttpAnswer) -> (Vec<ProxyAction>, Option<Result<serde_json::Value, SidecarError>>) {
    let mut asked = Vec::new();
    let call = ProxyCall::new(config(), trading_history_request());
    asked.push(call.request());
    let (call, action) = get_trading_history(call, ProxyEvent::Sidecar(Event::Cache(Some(8770))));
    asked.push(action);
    let (call, action) =
        get_trading_history(call, ProxyEvent::Sidecar(Event::ProbeAnswered(Some(200))));
    asked.push(action);
    assert!(!call.is_done());
    let (call, action) = get_trading_history(call, ProxyEvent::Answered(answer));
    asked.push(action);
    assert!(call.is_done());
    (asked, call.into_result())
}

#[test]
fn relayed_call_returns_the_document() {
    let (asked, result) =
        relay_with_cached_sidecar(HttpAnswer::Received { status: 200, body: HISTORY.to_vec() });
    assert_eq!(result, Some(Ok(history())));
    assert_eq!(
        asked,
        vec![
            ProxyAction::Sidecar(Action::ReadCache),
            ProxyAction::Sidecar(Action::Probe {
                port: 8770,
                url: "http://localhost:8770/health".to_string(),
                timeout_millis: 3000,
            }),
            ProxyAction::Get {
                url: "http://localhost:8770/trading-history".to_string(),
                timeout_millis: 10000,
            },
            ProxyAction::Done,
        ]
    );
}

#[test]
fn relayed_call_reports_a_transport_failure() {
    let (_, result) = relay_with_cached_sidecar(HttpAnswer::Failed("timed out".to_string()));
    assert_eq!(result, Some(Err(SidecarError::TransportError("timed out".to_string()))));
}

#[test]
fn relayed_call_reports_an_upstream_status() {
    let (_, result) =
        relay_with_cached_sidecar(HttpAnswer::Received { status: 500, body: b"boom".to_vec() });
    assert_eq!(result, Some(Err(SidecarError::UpstreamStatusError(500))));
}

#[test]
fn relayed_call_reports_a_body_that_does_not_decode() {
    let (_, result) =
        relay_with_cached_sidecar(HttpAnswer::Received { status: 200, body: b"<html>".to_vec() });
    assert_eq!(result, Some(Err(SidecarError::DecodeError)));
}

#[test]
fn relayed_call_fails_as_the_launch_fails() {
    let call = ProxyCall::new(config(), trading_history_request());
    let (call, action) = get_trading_history(call, ProxyEvent::Sidecar(Event::Cache(None)));
    assert_eq!(action, ProxyAction::Sidecar(Action::Locate(BaseDirectory::ResourceRoot)));
    let (call, action) =
        get_trading_history(call, ProxyEvent::Sidecar(Event::Base(Ok("/opt/app".to_string()))));
    assert_eq!(
        action,
        ProxyAction::Sidecar(Action::CheckExists("/opt/app/python/main.py".to_string()))
    );
    let (call, action) = get_trading_history(call, ProxyEvent::Sidecar(Event::Exists(false)));
    assert_eq!(action, ProxyAction::Done);
    assert_eq!(
        call.into_result(),
        Some(Err(SidecarError::ScriptNotFound("/opt/app/python/main.py".to_string())))
    );
}

#[test]
fn relayed_call_goes_to_the_port_that_was_started() {
    let call = ProxyCall::new(
        config(),
        ProxyRequest { endpoint_path: "positions".to_string(), timeout_millis: 2500 },
    );
    let events = vec![
        Event::Cache(None),
        Event::Base(Ok("/opt/app".to_string())),
        Event::Exists(true),
        Event::Exists(false),
        Event::PortScanned(Ok(8771)),
        Event::Spawned(Ok(())),
        Event::Settled,
        Event::ProbeAnswered(Some(200)),
        Event::Stored,
    ];
    let mut step = (call, ProxyAction::Done);
    for event in events {
        step = get_trading_history(step.0, ProxyEvent::Sidecar(event));
    }
    assert_eq!(
        step.1,
        ProxyAction::Get { url: "http://localhost:8771/positions".to_string(), timeout_millis: 2500 }
    );
    let (call, action) = get_trading_history(
        step.0,
        ProxyEvent::Answered(HttpAnswer::Received { status: 200, body: b"[]".to_vec() }),
    );
    assert_eq!(action, ProxyAction::Done);
    assert_eq!(call.into_result(), Some(Ok(serde_json::Value::Array(Vec::new()))));
}

#[test]
fn report_of_the_wrong_kind_changes_nothing() {
    let call = ProxyCall::new(config(), trading_history_request());
    let (call, action) = get_trading_history(
        call,
        ProxyEvent::Answered(HttpAnswer::Received { status: 200, body: b"{}".to_vec() }),
    );
    assert_eq!(action, ProxyAction::Sidecar(Action::ReadCache));
    assert!(!call.is_done());
    assert_eq!(call.into_result(), None);
}
