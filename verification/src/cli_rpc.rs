//! Wire types of the CLI ⇄ desktop RPC and the decisions around them.
//!
//! The CLI writes one [`CliRpcEnvelope`] per line onto the desktop's
//! `ui_sync` socket; the desktop answers with one [`CliRpcResponse`].
//! The desktop always answers with a typed response: an operation that
//! fails, or even panics, becomes an error response, so the CLI only
//! has to look at `ok`.
use vstd::prelude::*;
use vstd::string::StringExecFns;
use crate::text::{chars_of, is_whitespace, push_str, string_from_chars, trim, trim_chars, trim_end, trim_start};

verus! {

/// Trusted declaration of `serde_json::Value`, the JSON document that a
/// reply carries. It is opaque here: the library moves values of it
/// around and compares them for identity, but never looks inside.
#[verifier::external_type_specification]
#[verifier::external_body]
pub struct ExJsonValue(serde_json::Value);

/// Forge operations the CLI can ask the desktop to run. Each names the
/// workspace (by id or directory name) that the operation targets.
#[derive(Debug, Clone, PartialEq, Eq)]
pub enum CliRpcRequest {
    /// Read-only lookup of the workspace's PR.
    GithubPrShow { workspace_ref: String },
    /// Read-only PR action status (checks, reviews, mergeable state).
    GithubPrStatus { workspace_ref: String },
    /// Merge the workspace's PR.
    GithubPrMerge { workspace_ref: String },
    /// Close the workspace's PR.
    GithubPrClose { workspace_ref: String },
}

/// The workspace that a request targets.
pub open spec fn request_workspace(r: CliRpcRequest) -> Seq<char> {
    match r {
        CliRpcRequest::GithubPrShow { workspace_ref } => workspace_ref@,
        CliRpcRequest::GithubPrStatus { workspace_ref } => workspace_ref@,
        CliRpcRequest::GithubPrMerge { workspace_ref } => workspace_ref@,
        CliRpcRequest::GithubPrClose { workspace_ref } => workspace_ref@,
    }
}

/// A request with the protocol version it was written under.
#[derive(Debug, Clone, PartialEq, Eq)]
pub struct CliRpcEnvelope {
    pub cli_rpc_version: u8,
    pub request: CliRpcRequest,
}

impl CliRpcEnvelope {
    /// The protocol version this side speaks.
    pub const VERSION: u8 = 1;

    /// Wraps `request` at the current protocol version.
    pub fn new(request: CliRpcRequest) -> (e: CliRpcEnvelope)
        ensures
            e.cli_rpc_version == 1,
            e.request == request,
    {
        CliRpcEnvelope { cli_rpc_version: Self::VERSION, request }
    }
}

/// The reply to one request: `ok` with the operation's JSON result, or
/// not `ok` with an operator-actionable message.
#[derive(Debug, Clone)]
pub struct CliRpcResponse {
    pub ok: bool,
    pub result: Option<serde_json::Value>,
    pub error: Option<String>,
}

/// `r` is a successful reply carrying `v`.
pub open spec fn is_ok_response(r: CliRpcResponse, v: serde_json::Value) -> bool {
    r.ok && r.result == Some(v) && r.error is None
}

/// `r` is a failed reply carrying the message `m`.
pub open spec fn is_err_response(r: CliRpcResponse, m: Seq<char>) -> bool {
    !r.ok && r.result is None && (r.error matches Some(e) && e@ == m)
}

impl CliRpcResponse {
    /// A successful reply.
    pub fn ok(result: serde_json::Value) -> (r: CliRpcResponse)
        ensures
            is_ok_response(r, result),
    {
        CliRpcResponse { ok: true, result: Some(result), error: None }
    }

    /// A failed reply with `message`.
    pub fn err(message: &str) -> (r: CliRpcResponse)
        ensures
            is_err_response(r, message@),
    {
        CliRpcResponse { ok: false, result: None, error: Some(message.to_owned()) }
    }
}

/// The workspace a request targets, for logging.
pub fn workspace_ref_for_logging(request: &CliRpcRequest) -> (w: &str)
    ensures
        w@ == request_workspace(*request),
{
    match request {
        CliRpcRequest::GithubPrShow { workspace_ref } => workspace_ref.as_str(),
        CliRpcRequest::GithubPrStatus { workspace_ref } => workspace_ref.as_str(),
        CliRpcRequest::GithubPrMerge { workspace_ref } => workspace_ref.as_str(),
        CliRpcRequest::GithubPrClose { workspace_ref } => workspace_ref.as_str(),
    }
}

/// The reply for an operation's outcome: its JSON result, or its error
/// message (a workspace that did not resolve, or a failed forge call).
pub fn respond(outcome: Result<serde_json::Value, String>) -> (r: CliRpcResponse)
    ensures
        match outcome {
            Ok(v) => is_ok_response(r, v),
            Err(m) => is_err_response(r, m@),
        },
{
    match outcome {
        Ok(v) => CliRpcResponse::ok(v),
        Err(m) => CliRpcResponse::err(m.as_str()),
    }
}

/// The text a caught panic is reported by: its message when the payload
/// was a string, a placeholder otherwise.
pub open spec fn panic_detail(payload: Option<Seq<char>>) -> Seq<char> {
    match payload {
        Some(m) => m,
        None => "<non-string panic payload>"@,
    }
}

/// The reply once a dispatch has run to its end or panicked: a reply
/// that was produced passes through unchanged; a panic (with its string
/// payload, if it had one) becomes an error reply tagged
/// `"forge op panicked: "`.
pub fn settle_dispatch(outcome: Result<CliRpcResponse, Option<String>>) -> (r: CliRpcResponse)
    ensures
        match outcome {
            Ok(resp) => r == resp,
            Err(payload) => is_err_response(
                r,
                "forge op panicked: "@ + panic_detail(
                    match payload {
                        Some(p) => Some(p@),
                        None => None,
                    },
                ),
            ),
        },
{
    match outcome {
        Ok(resp) => resp,
        Err(payload) => {
            let mut msg: Vec<char> = Vec::new();
            push_str(&mut msg, "forge op panicked: ");
            match &payload {
                Some(p) => push_str(&mut msg, p.as_str()),
                None => push_str(&mut msg, "<non-string panic payload>"),
            }
            let text = string_from_chars(&msg);
            CliRpcResponse::err(text.as_str())
        },
    }
}

/// What the CLI takes from a reply: the result payload of a successful
/// reply, or the message to fail with.
pub open spec fn decoded(r: CliRpcResponse) -> Result<serde_json::Value, Seq<char>> {
    if !r.ok {
        match r.error {
            Some(e) => Err(e@),
            None => Err("desktop reported an unknown error"@),
        }
    } else {
        match r.result {
            Some(v) => Ok(v),
            None => Err("desktop response was ok but carried no result payload"@),
        }
    }
}

/// Turns a reply into its payload or the message to fail with.
pub fn decode_ipc_result(response: CliRpcResponse) -> (r: Result<serde_json::Value, String>)
    ensures
        match (r, decoded(response)) {
            (Ok(v), Ok(w)) => v == w,
            (Err(m), Err(n)) => m@ == n,
            _ => false,
        },
{
    if !response.ok {
        match response.error {
            Some(e) => Err(e),
            None => Err("desktop reported an unknown error".to_owned()),
        }
    } else {
        match response.result {
            Some(v) => Ok(v),
            None => Err("desktop response was ok but carried no result payload".to_owned()),
        }
    }
}

// ---------------------------------------------------------------------
// Laws
// ---------------------------------------------------------------------

/// A successful reply gives the CLI back exactly the payload it carried.
pub proof fn law_ok_reply_decodes_to_its_payload(r: CliRpcResponse, v: serde_json::Value)
    requires
        is_ok_response(r, v),
    ensures
        decoded(r) == Ok::<serde_json::Value, Seq<char>>(v),
{
}

/// A failed reply makes the CLI fail with exactly the message it carried.
pub proof fn law_err_reply_decodes_to_its_message(r: CliRpcResponse, m: Seq<char>)
    requires
        is_err_response(r, m),
    ensures
        decoded(r) == Err::<serde_json::Value, Seq<char>>(m),
{
}

/// A reply that is not `ok` never yields a payload.
pub proof fn law_failed_reply_never_decodes(r: CliRpcResponse)
    requires
        !r.ok,
    ensures
        decoded(r) is Err,
{
}

// ---------------------------------------------------------------------
// Line framing
// ---------------------------------------------------------------------

/// Frames one message for the socket: the serialized message, then a
/// newline.
pub fn frame_line(payload: &str) -> (line: String)
    ensures
        line@ == payload@.push('\n'),
{
    let mut out = payload.to_owned();
    out.push('\n');
    out
}

/// The message carried by a line read off the socket: the line without
/// its surrounding whitespace (including the line ending).
pub fn line_body(line: &str) -> (body: String)
    ensures
        body@ == trim(line@),
{
    let cs = chars_of(line);
    let t = trim_chars(&cs);
    string_from_chars(&t)
}

/// A framed message reads back as itself, provided it does not begin or
/// end with whitespace (compact JSON never does).
pub proof fn law_framed_line_reads_back(p: Seq<char>)
    requires
        p.len() == 0 || (!is_whitespace(p[0]) && !is_whitespace(p.last())),
    ensures
        trim(p.push('\n')) == p,
{
    let t = p.push('\n');
    assert(is_whitespace('\n'));
    if p.len() == 0 {
        assert(t.drop_first() =~= p);
        assert(trim_start(t) == trim_start(p));
    } else {
        assert(t[0] == p[0]);
        assert(trim_start(t) == t);
        assert(t.drop_last() =~= p);
        assert(trim_end(t) == trim_end(p));
    }
}

} // verus!
