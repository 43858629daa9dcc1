use helmor::cli_rpc::{CliRpcRequest, CliRpcResponse};
use helmor::github::{
    binding_warning, bindings_file_needed, dispatch, pick_bound_runtime, pr_close_text,
    pr_merge_text, pr_show_text, pr_text, request_for,
    ChangeRequestInfo, GithubAction, GithubPrAction, PrEvent, PrFlow, PrOp, PrPhase, PrStep,
};
use serde_json::Value;

fn pr(number: i64, merged: bool) -> Option<ChangeRequestInfo> {
    Some(ChangeRequestInfo {
        number,
        title: "test".to_string(),
        url: "https://example.com/pr/42".to_string(),
        state: "open".to_string(),
        is_merged: merged,
    })
}

#[test]
fn show_text() {
    assert_eq!(
        pr_show_text(&pr(42, false)),
        "#42 test\nURL:    https://example.com/pr/42\nState:  open"
    );
    assert_eq!(
        pr_show_text(&pr(7, true)),
        "#7 test\nURL:    https://example.com/pr/42\nState:  open (merged)"
    );
    assert_eq!(pr_show_text(&None), "No PR linked to this workspace.");
}

#[test]
fn merge_and_close_text() {
    assert_eq!(pr_merge_text(&pr(42, true)), "Merged PR #42: https://example.com/pr/42");
    assert_eq!(pr_merge_text(&None), "No PR to merge.");
    assert_eq!(pr_close_text(&pr(1003, false)), "Closed PR #1003: https://example.com/pr/42");
    assert_eq!(pr_close_text(&None), "No PR to close.");
}

#[test]
fn fallback_warning_only_for_remote_bindings() {
    assert_eq!(binding_warning(None), None);
    assert_eq!(binding_warning(Some("local")), None);
    assert_eq!(
        binding_warning(Some("docker-linux-arm64")).as_deref(),
        Some("warning: workspace is bound to remote runtime `docker-linux-arm64` and the Helmor desktop isn't running — falling back to the laptop's `gh`. Open the desktop app to route forge ops through the bound runtime.")
    );
}

#[test]
fn requests_per_operation() {
    assert_eq!(request_for(PrOp::Show, "w"), CliRpcRequest::GithubPrShow { workspace_ref: "w".into() });
    assert_eq!(request_for(PrOp::Status, "w"), CliRpcRequest::GithubPrStatus { workspace_ref: "w".into() });
    assert_eq!(request_for(PrOp::Merge, "w"), CliRpcRequest::GithubPrMerge { workspace_ref: "w".into() });
    assert_eq!(request_for(PrOp::Close, "w"), CliRpcRequest::GithubPrClose { workspace_ref: "w".into() });
}

fn start(action: GithubPrAction) -> PrFlow {
    let (flow, step) = dispatch(&GithubAction::Pr { action });
    assert!(matches!(step, PrStep::ResolveWorkspace { .. }));
    flow
}

#[test]
fn merge_via_desktop_notifies_then_prints() {
    let flow = start(GithubPrAction::Merge { workspace_ref: "helmor-taper/hamal".into() });
    assert_eq!(flow.op, PrOp::Merge);
    let (flow, step) = flow.advance(PrEvent::Resolved { workspace_id: "id-1".into() });
    match step {
        PrStep::SendRequest { request } => assert_eq!(
            request,
            CliRpcRequest::GithubPrMerge { workspace_ref: "helmor-taper/hamal".into() }
        ),
        _ => panic!("expected a request to the desktop"),
    }
    let (flow, step) = flow.advance(PrEvent::DesktopReplied { response: CliRpcResponse::ok(Value::Null) });
    match step {
        PrStep::NotifyChanged { workspace_id } => assert_eq!(workspace_id, "id-1"),
        _ => panic!("expected a UI notification"),
    }
    let (flow, step) = flow.advance(PrEvent::Notified);
    match step {
        PrStep::PrintRemote { op, payload } => {
            assert_eq!(op, PrOp::Merge);
            assert_eq!(payload, Value::Null);
        }
        _ => panic!("expected the payload to be printed"),
    }
    let (flow, step) = flow.advance(PrEvent::Printed);
    assert!(matches!(step, PrStep::Finish));
    assert!(matches!(flow.phase, PrPhase::Done));
}

#[test]
fn show_without_desktop_falls_back_locally() {
    let flow = start(GithubPrAction::Show { workspace_ref: "ws".into() });
    let (flow, _) = flow.advance(PrEvent::Resolved { workspace_id: "id".into() });
    let (flow, step) = flow.advance(PrEvent::DesktopAbsent);
    match step {
        PrStep::RunLocally { op, workspace_id } => {
            assert_eq!(op, PrOp::Show);
            assert_eq!(workspace_id, "id");
        }
        _ => panic!("expected the local fallback"),
    }
    let (_, step) = flow.advance(PrEvent::LocalSucceeded);
    assert!(matches!(step, PrStep::PrintLocal { op: PrOp::Show }));
}

#[test]
fn desktop_error_reply_fails_with_its_message() {
    let flow = start(GithubPrAction::Status { workspace_ref: "ws".into() });
    let (flow, _) = flow.advance(PrEvent::Resolved { workspace_id: "id".into() });
    let (flow, step) = flow.advance(PrEvent::DesktopReplied {
        response: CliRpcResponse::err("workspace not found: ws-doesnt-exist"),
    });
    match step {
        PrStep::Fail { message } => assert_eq!(message, "workspace not found: ws-doesnt-exist"),
        _ => panic!("expected failure"),
    }
    assert!(matches!(flow.phase, PrPhase::Done));
}

#[test]
fn resolve_and_transport_failures_end_the_command() {
    let flow = start(GithubPrAction::Close { workspace_ref: "nope".into() });
    let (_, step) = flow.advance(PrEvent::ResolveFailed { message: "workspace not found: nope".into() });
    assert!(matches!(step, PrStep::Fail { message } if message == "workspace not found: nope"));

    let flow = start(GithubPrAction::Close { workspace_ref: "w".into() });
    let (flow, _) = flow.advance(PrEvent::Resolved { workspace_id: "id".into() });
    let (_, step) = flow.advance(PrEvent::TransportFailed { message: "Failed to read CLI RPC response".into() });
    assert!(matches!(step, PrStep::Fail { message } if message == "Failed to read CLI RPC response"));
}

#[test]
fn local_close_notifies_before_printing() {
    let flow = start(GithubPrAction::Close { workspace_ref: "w".into() });
    let (flow, _) = flow.advance(PrEvent::Resolved { workspace_id: "id".into() });
    let (flow, _) = flow.advance(PrEvent::DesktopAbsent);
    let (flow, step) = flow.advance(PrEvent::LocalSucceeded);
    assert!(matches!(step, PrStep::NotifyChanged { ref workspace_id } if workspace_id == "id"));
    let (flow, step) = flow.advance(PrEvent::Notified);
    assert!(matches!(step, PrStep::PrintLocal { op: PrOp::Close }));
    let (_, step) = flow.advance(PrEvent::PrintFailed { message: "broken pipe".into() });
    assert!(matches!(step, PrStep::Fail { message } if message == "broken pipe"));

    let flow = start(GithubPrAction::Merge { workspace_ref: "w".into() });
    let (flow, _) = flow.advance(PrEvent::Resolved { workspace_id: "id".into() });
    let (flow, _) = flow.advance(PrEvent::DesktopAbsent);
    let (_, step) = flow.advance(PrEvent::LocalFailed { message: "gh: not logged in".into() });
    assert!(matches!(step, PrStep::Fail { message } if message == "gh: not logged in"));
}

#[test]
fn flow_accepts_only_fitting_events() {
    let flow = start(GithubPrAction::Show { workspace_ref: "ws".into() });
    assert!(flow.accepts(&PrEvent::Resolved { workspace_id: "id".into() }));
    assert!(!flow.accepts(&PrEvent::DesktopAbsent));
    let (flow, _) = flow.advance(PrEvent::Resolved { workspace_id: "id".into() });
    assert!(flow.accepts(&PrEvent::DesktopAbsent));
    assert!(!flow.accepts(&PrEvent::Notified));
}

#[test]
fn text_per_operation() {
    assert_eq!(pr_text(PrOp::Merge, &pr(42, true)), pr_merge_text(&pr(42, true)));
    assert_eq!(pr_text(PrOp::Close, &None), "No PR to close.");
    assert_eq!(pr_text(PrOp::Show, &None), "No PR linked to this workspace.");
    assert_eq!(pr_text(PrOp::Status, &pr(5, false)), pr_show_text(&pr(5, false)));
}

#[test]
fn database_binding_comes_first() {
    let db: Result<Option<String>, String> = Ok(Some("docker-linux-arm64".into()));
    assert!(!bindings_file_needed(&db));
    assert_eq!(
        pick_bound_runtime(db, Some(Ok(Some("other".into())))).as_deref(),
        Some("docker-linux-arm64")
    );
    let unbound: Result<Option<String>, String> = Ok(None);
    assert!(bindings_file_needed(&unbound));
    assert_eq!(pick_bound_runtime(unbound, Some(Ok(Some("box".into())))).as_deref(), Some("box"));
    let failed: Result<Option<String>, String> = Err("db locked".into());
    assert!(bindings_file_needed(&failed));
    assert_eq!(pick_bound_runtime(failed, Some(Err("no data dir".into()))), None);
    assert_eq!(pick_bound_runtime(Ok(None), None), None);
}
