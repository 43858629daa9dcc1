use helmor::cli_rpc::{
    decode_ipc_result, respond, settle_dispatch, workspace_ref_for_logging, CliRpcEnvelope,
    CliRpcRequest, CliRpcResponse,
};
use serde_json::Value;

fn object(key: &str, value: Value) -> Value {
    let mut m = serde_json::Map::new();
    m.insert(key.to_string(), value);
    Value::Object(m)
}

#[test]
fn response_ok_includes_result() {
    let resp = CliRpcResponse::ok(object("merged", Value::Bool(true)));
    assert!(resp.ok);
    assert_eq!(resp.result, Some(object("merged", Value::Bool(true))));
    assert!(resp.error.is_none());
}

#[test]
fn response_err_carries_message() {
    let resp = CliRpcResponse::err("workspace not found");
    assert!(!resp.ok);
    assert!(resp.result.is_none());
    assert_eq!(resp.error.as_deref(), Some("workspace not found"));
}

#[test]
fn envelope_carries_version_one() {
    let request = CliRpcRequest::GithubPrStatus { workspace_ref: "ws-1".into() };
    let envelope = CliRpcEnvelope::new(request.clone());
    assert_eq!(envelope.cli_rpc_version, 1);
    assert_eq!(CliRpcEnvelope::VERSION, 1);
    assert_eq!(envelope.request, request);
}

#[test]
fn logging_names_the_workspace() {
    for request in [
        CliRpcRequest::GithubPrShow { workspace_ref: "a".into() },
        CliRpcRequest::GithubPrStatus { workspace_ref: "a".into() },
        CliRpcRequest::GithubPrMerge { workspace_ref: "a".into() },
        CliRpcRequest::GithubPrClose { workspace_ref: "a".into() },
    ] {
        assert_eq!(workspace_ref_for_logging(&request), "a");
    }
}

#[test]
fn panic_with_string_payload_becomes_response_err() {
    let response = settle_dispatch(Err(Some("boom: simulated forge crash".to_string())));
    assert!(!response.ok);
    let msg = response.error.expect("error message on panic");
    assert!(msg.contains("forge op panicked"), "got: {msg}");
    assert!(msg.contains("boom: simulated forge crash"), "got: {msg}");
    assert!(response.result.is_none());
}

#[test]
fn panic_with_static_str_payload_becomes_response_err() {
    let response = settle_dispatch(Err(Some("static-str panic payload".to_string())));
    assert!(!response.ok);
    let msg = response.error.expect("error message on panic");
    assert!(msg.contains("static-str panic payload"), "got: {msg}");
}

#[test]
fn panic_with_non_string_payload_falls_back_to_placeholder() {
    let response = settle_dispatch(Err(None));
    assert!(!response.ok);
    let msg = response.error.expect("error message on panic");
    assert!(msg.contains("<non-string panic payload>"), "got: {msg}");
    assert_eq!(msg, "forge op panicked: <non-string panic payload>");
}

#[test]
fn ok_response_passes_through_unchanged() {
    let response = settle_dispatch(Ok(CliRpcResponse::ok(object("hello", Value::String("world".into())))));
    assert!(response.ok);
    assert_eq!(response.result, Some(object("hello", Value::String("world".into()))));
    assert!(response.error.is_none());
}

#[test]
fn err_response_passes_through_without_panic_prefix() {
    let response = settle_dispatch(Ok(CliRpcResponse::err("plain dispatch error")));
    assert!(!response.ok);
    let msg = response.error.expect("error message on Err");
    assert_eq!(msg, "plain dispatch error");
    assert!(
        !msg.contains("forge op panicked"),
        "non-panic errors must not be tagged as panics: {msg}"
    );
}

#[test]
fn outcome_becomes_response() {
    let ok = respond(Ok(Value::Null));
    assert!(ok.ok);
    assert_eq!(ok.result, Some(Value::Null));
    let err = respond(Err("workspace not found: ws-x".to_string()));
    assert!(!err.ok);
    assert_eq!(err.error.as_deref(), Some("workspace not found: ws-x"));
}

#[test]
fn decoding_replies() {
    let payload = object("number", Value::from(42));
    assert_eq!(decode_ipc_result(CliRpcResponse::ok(payload.clone())), Ok(payload));
    assert_eq!(
        decode_ipc_result(CliRpcResponse::err("workspace not found: ws-doesnt-exist")),
        Err("workspace not found: ws-doesnt-exist".to_string())
    );
    let silent_failure = CliRpcResponse { ok: false, result: None, error: None };
    assert_eq!(
        decode_ipc_result(silent_failure),
        Err("desktop reported an unknown error".to_string())
    );
    let empty_success = CliRpcResponse { ok: true, result: None, error: None };
    assert_eq!(
        decode_ipc_result(empty_success),
        Err("desktop response was ok but carried no result payload".to_string())
    );
}
