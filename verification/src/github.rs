//! `helmor github pr`: workspace-scoped PR operations.
//!
//! When the desktop is running, the CLI hands the operation to it over
//! the `ui_sync` socket and prints what comes back; when it is not, the
//! CLI falls back to its own `gh` (warning first when the workspace is
//! bound to a non-local runtime). Merging or closing a PR tells the
//! desktop's UI that the workspace's change request changed.
//!
//! The command is driven as a small state machine: [`dispatch`] starts
//! it, and [`PrFlow::advance`] takes the outcome of each step and says
//! what to do next. The driver performs the steps (socket, `gh`,
//! printing) and reports back.
use vstd::prelude::*;
use vstd::string::StringExecFns;
use crate::cli_rpc::{decode_ipc_result, decoded, CliRpcRequest, CliRpcResponse};
use crate::text::{push_signed_decimal, push_str, signed_decimal, string_from_chars};

verus! {

/// The PR subcommands, each naming a workspace.
pub enum GithubPrAction {
    Show { workspace_ref: String },
    Status { workspace_ref: String },
    Merge { workspace_ref: String },
    Close { workspace_ref: String },
}

/// The `github` command group.
pub enum GithubAction {
    Pr { action: GithubPrAction },
}

/// Which PR operation a command performs.
#[derive(Debug, Clone, Copy, PartialEq, Eq, Structural)]
pub enum PrOp {
    Show,
    Status,
    Merge,
    Close,
}

/// Merge and close change the PR; the desktop's UI is told afterwards.
pub open spec fn is_mutating(op: PrOp) -> bool {
    op == PrOp::Merge || op == PrOp::Close
}

/// The RPC request that asks the desktop to run `op` on `workspace_ref`.
pub open spec fn request_matches(r: CliRpcRequest, op: PrOp, workspace_ref: Seq<char>) -> bool {
    match r {
        CliRpcRequest::GithubPrShow { workspace_ref: w } => op == PrOp::Show && w@ == workspace_ref,
        CliRpcRequest::GithubPrStatus { workspace_ref: w } => op == PrOp::Status && w@ == workspace_ref,
        CliRpcRequest::GithubPrMerge { workspace_ref: w } => op == PrOp::Merge && w@ == workspace_ref,
        CliRpcRequest::GithubPrClose { workspace_ref: w } => op == PrOp::Close && w@ == workspace_ref,
    }
}

/// Builds the RPC request for `op` on `workspace_ref`.
pub fn request_for(op: PrOp, workspace_ref: &str) -> (r: CliRpcRequest)
    ensures
        request_matches(r, op, workspace_ref@),
{
    let w = workspace_ref.to_owned();
    match op {
        PrOp::Show => CliRpcRequest::GithubPrShow { workspace_ref: w },
        PrOp::Status => CliRpcRequest::GithubPrStatus { workspace_ref: w },
        PrOp::Merge => CliRpcRequest::GithubPrMerge { workspace_ref: w },
        PrOp::Close => CliRpcRequest::GithubPrClose { workspace_ref: w },
    }
}

/// Where a PR command stands.
pub enum PrPhase {
    /// Waiting for the workspace reference to resolve to an id.
    Resolving,
    /// The request went to the desktop; waiting for its answer.
    AwaitingDesktop { workspace_id: String },
    /// The desktop is not running; the laptop's `gh` is doing the work.
    RunningLocally { workspace_id: String },
    /// The desktop answered a merge or close; the UI is being told before
    /// the answer is printed.
    NotifyingAfterDesktop { response: CliRpcResponse },
    /// A local merge or close finished; the UI is being told.
    NotifyingAfterLocal,
    /// The result is being printed.
    Printing,
    /// Nothing more to do.
    Done,
}

/// A PR command in progress.
pub struct PrFlow {
    pub op: PrOp,
    pub workspace_ref: String,
    pub phase: PrPhase,
}

/// What the driver is to do next.
pub enum PrStep {
    /// Resolve the workspace reference to a workspace id.
    ResolveWorkspace { workspace_ref: String },
    /// Send `request` to the desktop over its socket.
    SendRequest { request: CliRpcRequest },
    /// Run `op` with the laptop's own `gh` (warning first when the
    /// workspace is bound to a remote runtime).
    RunLocally { op: PrOp, workspace_id: String },
    /// Tell the desktop's UI that this workspace's PR changed.
    NotifyChanged { workspace_id: String },
    /// Print the desktop's result payload for `op`.
    PrintRemote { op: PrOp, payload: serde_json::Value },
    /// Print the local result for `op`.
    PrintLocal { op: PrOp },
    /// Fail the command with `message`.
    Fail { message: String },
    /// The command is complete.
    Finish,
}

/// What came of the last step.
pub enum PrEvent {
    Resolved { workspace_id: String },
    ResolveFailed { message: String },
    /// The desktop answered.
    DesktopReplied { response: CliRpcResponse },
    /// No desktop is listening (no socket, or the connection was refused).
    DesktopAbsent,
    /// The socket was there but the exchange broke down.
    TransportFailed { message: String },
    LocalSucceeded,
    LocalFailed { message: String },
    Notified,
    Printed,
    PrintFailed { message: String },
}

/// The events that can answer the step taken in `phase`.
pub open spec fn event_fits(phase: PrPhase, event: PrEvent) -> bool {
    match phase {
        PrPhase::Resolving => event is Resolved || event is ResolveFailed,
        PrPhase::AwaitingDesktop { .. } => event is DesktopReplied || event is DesktopAbsent
            || event is TransportFailed,
        PrPhase::RunningLocally { .. } => event is LocalSucceeded || event is LocalFailed,
        PrPhase::NotifyingAfterDesktop { .. } => event is Notified,
        PrPhase::NotifyingAfterLocal => event is Notified,
        PrPhase::Printing => event is Printed || event is PrintFailed,
        PrPhase::Done => false,
    }
}

/// `step` fails the command with message `m`, and the flow is over.
pub open spec fn fails_with(next: PrFlow, step: PrStep, m: Seq<char>) -> bool {
    &&& next.phase is Done
    &&& step matches PrStep::Fail { message } && message@ == m
}

/// The steps that follow the desktop's answer once any UI notification
/// is behind: print its payload, or fail with its message.
pub open spec fn after_reply(op: PrOp, response: CliRpcResponse, next: PrFlow, step: PrStep) -> bool {
    match decoded(response) {
        Ok(v) => next.phase is Printing && step == (PrStep::PrintRemote { op, payload: v }),
        Err(m) => fails_with(next, step, m),
    }
}

/// One transition of the PR command.
pub open spec fn advances_to(flow: PrFlow, event: PrEvent, next: PrFlow, step: PrStep) -> bool {
    &&& next.op == flow.op
    &&& next.workspace_ref == flow.workspace_ref
    &&& match (flow.phase, event) {
        (PrPhase::Resolving, PrEvent::Resolved { workspace_id }) => {
            &&& next.phase matches PrPhase::AwaitingDesktop { workspace_id: id } && id@ == workspace_id@
            &&& step matches PrStep::SendRequest { request } && request_matches(
                request,
                flow.op,
                flow.workspace_ref@,
            )
        },
        (PrPhase::Resolving, PrEvent::ResolveFailed { message }) => fails_with(next, step, message@),
        (PrPhase::AwaitingDesktop { workspace_id }, PrEvent::DesktopAbsent) => {
            &&& next.phase matches PrPhase::RunningLocally { workspace_id: id } && id@ == workspace_id@
            &&& step matches PrStep::RunLocally { op, workspace_id: id } && op == flow.op && id@
                == workspace_id@
        },
        (PrPhase::AwaitingDesktop { .. }, PrEvent::TransportFailed { message }) => fails_with(
            next,
            step,
            message@,
        ),
        (PrPhase::AwaitingDesktop { workspace_id }, PrEvent::DesktopReplied { response }) => {
            if is_mutating(flow.op) {
                &&& next.phase == (PrPhase::NotifyingAfterDesktop { response })
                &&& step matches PrStep::NotifyChanged { workspace_id: id } && id@ == workspace_id@
            } else {
                after_reply(flow.op, response, next, step)
            }
        },
        (PrPhase::NotifyingAfterDesktop { response }, PrEvent::Notified) => after_reply(
            flow.op,
            response,
            next,
            step,
        ),
        (PrPhase::RunningLocally { workspace_id }, PrEvent::LocalSucceeded) => {
            if is_mutating(flow.op) {
                &&& next.phase is NotifyingAfterLocal
                &&& step matches PrStep::NotifyChanged { workspace_id: id } && id@ == workspace_id@
            } else {
                next.phase is Printing && step == (PrStep::PrintLocal { op: flow.op })
            }
        },
        (PrPhase::RunningLocally { .. }, PrEvent::LocalFailed { message }) => fails_with(
            next,
            step,
            message@,
        ),
        (PrPhase::NotifyingAfterLocal, PrEvent::Notified) => next.phase is Printing && step == (
        PrStep::PrintLocal { op: flow.op }),
        (PrPhase::Printing, PrEvent::Printed) => next.phase is Done && step is Finish,
        (PrPhase::Printing, PrEvent::PrintFailed { message }) => fails_with(next, step, message@),
        _ => false,
    }
}

/// The operation and workspace a subcommand names.
pub open spec fn action_target(action: GithubAction) -> (PrOp, Seq<char>) {
    match action {
        GithubAction::Pr { action } => match action {
            GithubPrAction::Show { workspace_ref } => (PrOp::Show, workspace_ref@),
            GithubPrAction::Status { workspace_ref } => (PrOp::Status, workspace_ref@),
            GithubPrAction::Merge { workspace_ref } => (PrOp::Merge, workspace_ref@),
            GithubPrAction::Close { workspace_ref } => (PrOp::Close, workspace_ref@),
        },
    }
}

/// Starts a `github` command: the operation it names, on the workspace
/// it names, beginning by resolving that workspace.
pub fn dispatch(action: &GithubAction) -> (r: (PrFlow, PrStep))
    ensures
        (r.0.op, r.0.workspace_ref@) == action_target(*action),
        r.0.phase is Resolving,
        r.1 matches PrStep::ResolveWorkspace { workspace_ref } && workspace_ref@ == action_target(
            *action,
        ).1,
{
    let (op, w) = match action {
        GithubAction::Pr { action } => match action {
            GithubPrAction::Show { workspace_ref } => (PrOp::Show, workspace_ref),
            GithubPrAction::Status { workspace_ref } => (PrOp::Status, workspace_ref),
            GithubPrAction::Merge { workspace_ref } => (PrOp::Merge, workspace_ref),
            GithubPrAction::Close { workspace_ref } => (PrOp::Close, workspace_ref),
        },
    };
    let flow = PrFlow { op, workspace_ref: w.as_str().to_owned(), phase: PrPhase::Resolving };
    let step = PrStep::ResolveWorkspace { workspace_ref: w.as_str().to_owned() };
    (flow, step)
}

fn fail(op: PrOp, workspace_ref: String, message: String) -> (r: (PrFlow, PrStep))
    ensures
        r.0.op == op,
        r.0.workspace_ref == workspace_ref,
        fails_with(r.0, r.1, message@),
{
    (PrFlow { op, workspace_ref, phase: PrPhase::Done }, PrStep::Fail { message })
}

fn settle_reply(op: PrOp, workspace_ref: String, response: CliRpcResponse) -> (r: (PrFlow, PrStep))
    ensures
        r.0.op == op,
        r.0.workspace_ref == workspace_ref,
        after_reply(op, response, r.0, r.1),
{
    match decode_ipc_result(response) {
        Ok(payload) => (
            PrFlow { op, workspace_ref, phase: PrPhase::Printing },
            PrStep::PrintRemote { op, payload },
        ),
        Err(message) => fail(op, workspace_ref, message),
    }
}

impl PrFlow {
    /// Whether `event` can answer the step taken in the current phase.
    pub fn accepts(&self, event: &PrEvent) -> (b: bool)
        ensures
            b == event_fits(self.phase, *event),
    {
        match &self.phase {
            PrPhase::Resolving => match event {
                PrEvent::Resolved { .. } | PrEvent::ResolveFailed { .. } => true,
                _ => false,
            },
            PrPhase::AwaitingDesktop { .. } => match event {
                PrEvent::DesktopReplied { .. } | PrEvent::DesktopAbsent
                | PrEvent::TransportFailed { .. } => true,
                _ => false,
            },
            PrPhase::RunningLocally { .. } => match event {
                PrEvent::LocalSucceeded | PrEvent::LocalFailed { .. } => true,
                _ => false,
            },
            PrPhase::NotifyingAfterDesktop { .. } | PrPhase::NotifyingAfterLocal => match event {
                PrEvent::Notified => true,
                _ => false,
            },
            PrPhase::Printing => match event {
                PrEvent::Printed | PrEvent::PrintFailed { .. } => true,
                _ => false,
            },
            PrPhase::Done => false,
        }
    }

    /// Takes the outcome of the last step and gives the next state of the
    /// command and the step to perform.
    pub fn advance(self, event: PrEvent) -> (r: (PrFlow, PrStep))
        requires
            event_fits(self.phase, event),
        ensures
            advances_to(self, event, r.0, r.1),
    {
        let op = self.op;
        let w = self.workspace_ref;
        match self.phase {
            PrPhase::Resolving => match event {
                PrEvent::Resolved { workspace_id } => {
                    let request = request_for(op, w.as_str());
                    (
                        PrFlow { op, workspace_ref: w, phase: PrPhase::AwaitingDesktop { workspace_id } },
                        PrStep::SendRequest { request },
                    )
                },
                PrEvent::ResolveFailed { message } => fail(op, w, message),
                _ => fail(op, w, String::new()),
            },
            PrPhase::AwaitingDesktop { workspace_id } => match event {
                PrEvent::DesktopAbsent => {
                    let id = workspace_id.as_str().to_owned();
                    (
                        PrFlow { op, workspace_ref: w, phase: PrPhase::RunningLocally { workspace_id } },
                        PrStep::RunLocally { op, workspace_id: id },
                    )
                },
                PrEvent::TransportFailed { message } => fail(op, w, message),
                PrEvent::DesktopReplied { response } => {
                    if op == PrOp::Merge || op == PrOp::Close {
                        (
                            PrFlow { op, workspace_ref: w, phase: PrPhase::NotifyingAfterDesktop { response } },
                            PrStep::NotifyChanged { workspace_id },
                        )
                    } else {
                        settle_reply(op, w, response)
                    }
                },
                _ => fail(op, w, String::new()),
            },
            PrPhase::NotifyingAfterDesktop { response } => settle_reply(op, w, response),
            PrPhase::RunningLocally { workspace_id } => match event {
                PrEvent::LocalSucceeded => {
                    if op == PrOp::Merge || op == PrOp::Close {
                        (
                            PrFlow { op, workspace_ref: w, phase: PrPhase::NotifyingAfterLocal },
                            PrStep::NotifyChanged { workspace_id },
                        )
                    } else {
                        (PrFlow { op, workspace_ref: w, phase: PrPhase::Printing }, PrStep::PrintLocal { op })
                    }
                },
                PrEvent::LocalFailed { message } => fail(op, w, message),
                _ => fail(op, w, String::new()),
            },
            PrPhase::NotifyingAfterLocal => (
                PrFlow { op, workspace_ref: w, phase: PrPhase::Printing },
                PrStep::PrintLocal { op },
            ),
            PrPhase::Printing => match event {
                PrEvent::PrintFailed { message } => fail(op, w, message),
                _ => (PrFlow { op, workspace_ref: w, phase: PrPhase::Done }, PrStep::Finish),
            },
            PrPhase::Done => fail(op, w, String::new()),
        }
    }
}

// ---------------------------------------------------------------------
// Output
// ---------------------------------------------------------------------

/// The PR linked to a workspace, as the forge reports it.
pub struct ChangeRequestInfo {
    pub number: i64,
    pub title: String,
    pub url: String,
    pub state: String,
    pub is_merged: bool,
}

/// `pr show`: number and title, then URL and state (marked when merged).
pub open spec fn show_text(pr: Option<ChangeRequestInfo>) -> Seq<char> {
    match pr {
        Some(p) => "#"@ + signed_decimal(p.number as int) + " "@ + p.title@ + "\nURL:    "@ + p.url@
            + "\nState:  "@ + p.state@ + (if p.is_merged {
            " (merged)"@
        } else {
            Seq::empty()
        }),
        None => "No PR linked to this workspace."@,
    }
}

/// `pr merge`: the merged PR's number and URL.
pub open spec fn merge_text(pr: Option<ChangeRequestInfo>) -> Seq<char> {
    match pr {
        Some(p) => "Merged PR #"@ + signed_decimal(p.number as int) + ": "@ + p.url@,
        None => "No PR to merge."@,
    }
}

/// `pr close`: the closed PR's number and URL.
pub open spec fn close_text(pr: Option<ChangeRequestInfo>) -> Seq<char> {
    match pr {
        Some(p) => "Closed PR #"@ + signed_decimal(p.number as int) + ": "@ + p.url@,
        None => "No PR to close."@,
    }
}

/// The human-readable text of `pr show`.
pub fn pr_show_text(pr: &Option<ChangeRequestInfo>) -> (t: String)
    ensures
        t@ == show_text(*pr),
{
    match pr {
        Some(p) => {
            let mut out: Vec<char> = Vec::new();
            push_str(&mut out, "#");
            push_signed_decimal(&mut out, p.number);
            push_str(&mut out, " ");
            push_str(&mut out, p.title.as_str());
            push_str(&mut out, "\nURL:    ");
            push_str(&mut out, p.url.as_str());
            push_str(&mut out, "\nState:  ");
            push_str(&mut out, p.state.as_str());
            if p.is_merged {
                push_str(&mut out, " (merged)");
            }
            proof {
                assert(out@ =~= show_text(*pr));
            }
            string_from_chars(&out)
        },
        None => "No PR linked to this workspace.".to_owned(),
    }
}

/// The human-readable text of `pr merge`.
pub fn pr_merge_text(pr: &Option<ChangeRequestInfo>) -> (t: String)
    ensures
        t@ == merge_text(*pr),
{
    match pr {
        Some(p) => {
            let mut out: Vec<char> = Vec::new();
            push_str(&mut out, "Merged PR #");
            push_signed_decimal(&mut out, p.number);
            push_str(&mut out, ": ");
            push_str(&mut out, p.url.as_str());
            string_from_chars(&out)
        },
        None => "No PR to merge.".to_owned(),
    }
}

/// The human-readable text of `pr close`.
pub fn pr_close_text(pr: &Option<ChangeRequestInfo>) -> (t: String)
    ensures
        t@ == close_text(*pr),
{
    match pr {
        Some(p) => {
            let mut out: Vec<char> = Vec::new();
            push_str(&mut out, "Closed PR #");
            push_signed_decimal(&mut out, p.number);
            push_str(&mut out, ": ");
            push_str(&mut out, p.url.as_str());
            string_from_chars(&out)
        },
        None => "No PR to close.".to_owned(),
    }
}

// ---------------------------------------------------------------------
// Local fallback
// ---------------------------------------------------------------------

/// The warning printed before the laptop's `gh` takes over for a
/// workspace bound to runtime `name`.
pub open spec fn fallback_warning(name: Seq<char>) -> Seq<char> {
    "warning: workspace is bound to remote runtime `"@ + name
        + "` and the Helmor desktop isn't running — falling back to the laptop's `gh`. Open the desktop app to route forge ops through the bound runtime."@
}

/// The warning to print before falling back to the laptop's `gh`: one
/// when the workspace is bound to a runtime other than `local`, none for
/// an unbound or locally bound workspace.
pub fn binding_warning(bound: Option<&str>) -> (w: Option<String>)
    ensures
        match bound {
            Some(name) => if name@ == "local"@ {
                w is None
            } else {
                w matches Some(m) && m@ == fallback_warning(name@)
            },
            None => w is None,
        },
{
    match bound {
        None => None,
        Some(name) => {
            let cs = crate::text::chars_of(name);
            let local = crate::text::chars_of("local");
            if crate::text::chars_equal(&cs, &local) {
                None
            } else {
                let mut out: Vec<char> = Vec::new();
                push_str(&mut out, "warning: workspace is bound to remote runtime `");
                push_str(&mut out, name);
                push_str(
                    &mut out,
                    "` and the Helmor desktop isn't running — falling back to the laptop's `gh`. Open the desktop app to route forge ops through the bound runtime.",
                );
                Some(string_from_chars(&out))
            }
        },
    }
}

// ---------------------------------------------------------------------
// Laws
// ---------------------------------------------------------------------

/// Once the desktop has answered, the laptop's `gh` is never used: the
/// answer is printed or reported, never replaced by a local run.
pub proof fn law_desktop_answer_is_never_replaced(
    flow: PrFlow,
    response: CliRpcResponse,
    next: PrFlow,
    step: PrStep,
)
    requires
        flow.phase is AwaitingDesktop,
        advances_to(flow, PrEvent::DesktopReplied { response }, next, step),
    ensures
        !(step is RunLocally),
        !(next.phase is RunningLocally),
{
}

/// The local fallback runs only when no desktop is listening, and then
/// for the same operation on the same workspace.
pub proof fn law_fallback_only_without_desktop(
    flow: PrFlow,
    event: PrEvent,
    next: PrFlow,
    step: PrStep,
)
    requires
        advances_to(flow, event, next, step),
        step is RunLocally,
    ensures
        flow.phase is AwaitingDesktop,
        event is DesktopAbsent,
        step->RunLocally_op == flow.op,
        step->RunLocally_workspace_id@ == flow.phase->AwaitingDesktop_workspace_id@,
{
}

/// Only a merge or a close ever tells the desktop's UI that a
/// workspace's PR changed.
pub proof fn law_only_mutations_notify(flow: PrFlow, event: PrEvent, next: PrFlow, step: PrStep)
    requires
        advances_to(flow, event, next, step),
        step is NotifyChanged,
    ensures
        is_mutating(flow.op),
{
}

/// A merge or close that the desktop answered tells the UI before
/// anything is printed, whether the answer is a success or an error.
pub proof fn law_answered_mutation_notifies_first(
    flow: PrFlow,
    response: CliRpcResponse,
    next: PrFlow,
    step: PrStep,
)
    requires
        flow.phase is AwaitingDesktop,
        is_mutating(flow.op),
        advances_to(flow, PrEvent::DesktopReplied { response }, next, step),
    ensures
        step is NotifyChanged,
        next.phase is NotifyingAfterDesktop,
{
}

/// The request sent for an operation targets the workspace it was
/// built for.
pub proof fn law_request_targets_its_workspace(r: CliRpcRequest, op: PrOp, w: Seq<char>)
    requires
        request_matches(r, op, w),
    ensures
        crate::cli_rpc::request_workspace(r) == w,
{
}

/// The operation a request asks for and the workspace it names: what the
/// desktop runs when the request arrives.
pub fn request_operation(request: &CliRpcRequest) -> (r: (PrOp, &str))
    ensures
        request_matches(*request, r.0, r.1@),
{
    match request {
        CliRpcRequest::GithubPrShow { workspace_ref } => (PrOp::Show, workspace_ref.as_str()),
        CliRpcRequest::GithubPrStatus { workspace_ref } => (PrOp::Status, workspace_ref.as_str()),
        CliRpcRequest::GithubPrMerge { workspace_ref } => (PrOp::Merge, workspace_ref.as_str()),
        CliRpcRequest::GithubPrClose { workspace_ref } => (PrOp::Close, workspace_ref.as_str()),
    }
}

/// The desktop runs the very operation, on the very workspace, that the
/// CLI built the request for.
pub proof fn law_desktop_runs_the_requested_operation(
    r: CliRpcRequest,
    op: PrOp,
    w: Seq<char>,
    op2: PrOp,
    w2: Seq<char>,
)
    requires
        request_matches(r, op, w),
        request_matches(r, op2, w2),
    ensures
        op2 == op,
        w2 == w,
{
}

/// The text printed for `op`'s PR result: the merge text for a merge,
/// the close text for a close, the show text otherwise.
pub open spec fn op_text(op: PrOp, pr: Option<ChangeRequestInfo>) -> Seq<char> {
    match op {
        PrOp::Merge => merge_text(pr),
        PrOp::Close => close_text(pr),
        _ => show_text(pr),
    }
}

/// The human-readable text of a PR result of `op`.
pub fn pr_text(op: PrOp, pr: &Option<ChangeRequestInfo>) -> (t: String)
    ensures
        t@ == op_text(op, *pr),
{
    match op {
        PrOp::Merge => pr_merge_text(pr),
        PrOp::Close => pr_close_text(pr),
        _ => pr_show_text(pr),
    }
}

/// Whether the runtime binding recorded in the workspace database
/// settles which runtime the workspace is bound to; when it does not
/// (no value, or the lookup failed), the bindings file is consulted.
pub fn bindings_file_needed(from_db: &Result<Option<String>, String>) -> (needed: bool)
    ensures
        needed == !(from_db matches Ok(Some(_))),
{
    match from_db {
        Ok(Some(_)) => false,
        _ => true,
    }
}

/// The runtime a workspace is bound to: the database's value when it has
/// one, else the bindings file's (`None` when the file was not consulted,
/// when its lookup failed, or when it has no binding for the workspace).
pub open spec fn bound_runtime_spec(
    from_db: Result<Option<String>, String>,
    from_file: Option<Result<Option<String>, String>>,
) -> Option<Seq<char>> {
    match from_db {
        Ok(Some(name)) => Some(name@),
        _ => match from_file {
            Some(Ok(Some(name))) => Some(name@),
            _ => None,
        },
    }
}

/// Picks the runtime a workspace is bound to from the database lookup
/// and, when it was consulted, the bindings-file lookup.
pub fn pick_bound_runtime(
    from_db: Result<Option<String>, String>,
    from_file: Option<Result<Option<String>, String>>,
) -> (bound: Option<String>)
    ensures
        match bound {
            Some(b) => bound_runtime_spec(from_db, from_file) == Some(b@),
            None => bound_runtime_spec(from_db, from_file) is None,
        },
{
    match from_db {
        Ok(Some(name)) => Some(name),
        _ => match from_file {
            Some(Ok(Some(name))) => Some(name),
            _ => None,
        },
    }
}

/// The database's binding takes precedence: when it names a runtime, the
/// bindings file is neither needed nor used.
pub proof fn law_database_binding_wins(
    from_db: Result<Option<String>, String>,
    from_file: Option<Result<Option<String>, String>>,
)
    requires
        from_db matches Ok(Some(_)),
    ensures
        bound_runtime_spec(from_db, from_file) == Some(from_db->Ok_0->Some_0@),
{
}

/// Each subcommand starts the operation of the same name, on the
/// workspace it names.
pub proof fn law_each_subcommand_starts_its_own_operation(w: String)
    ensures
        action_target(GithubAction::Pr { action: GithubPrAction::Show { workspace_ref: w } })
            == (PrOp::Show, w@),
        action_target(GithubAction::Pr { action: GithubPrAction::Status { workspace_ref: w } })
            == (PrOp::Status, w@),
        action_target(GithubAction::Pr { action: GithubPrAction::Merge { workspace_ref: w } })
            == (PrOp::Merge, w@),
        action_target(GithubAction::Pr { action: GithubPrAction::Close { workspace_ref: w } })
            == (PrOp::Close, w@),
{
}

/// A request built for an operation is the request of that name.
pub proof fn law_requests_name_their_operation(r: CliRpcRequest, w: Seq<char>)
    ensures
        request_matches(r, PrOp::Show, w) ==> r is GithubPrShow,
        request_matches(r, PrOp::Status, w) ==> r is GithubPrStatus,
        request_matches(r, PrOp::Merge, w) ==> r is GithubPrMerge,
        request_matches(r, PrOp::Close, w) ==> r is GithubPrClose,
{
}

/// Once its workspace resolves, a subcommand sends the desktop the
/// request of its own name for the workspace the user named: `pr status`
/// asks for the status, `pr show` for the PR, and so on.
pub proof fn law_subcommand_sends_its_own_request(
    action: GithubPrAction,
    flow: PrFlow,
    id: String,
    next: PrFlow,
    step: PrStep,
)
    requires
        (flow.op, flow.workspace_ref@) == action_target(GithubAction::Pr { action }),
        flow.phase is Resolving,
        advances_to(flow, PrEvent::Resolved { workspace_id: id }, next, step),
    ensures
        step matches PrStep::SendRequest { request } && match action {
            GithubPrAction::Show { workspace_ref } => request matches CliRpcRequest::GithubPrShow {
                workspace_ref: r,
            } && r@ == workspace_ref@,
            GithubPrAction::Status { workspace_ref } => request matches CliRpcRequest::GithubPrStatus {
                workspace_ref: r,
            } && r@ == workspace_ref@,
            GithubPrAction::Merge { workspace_ref } => request matches CliRpcRequest::GithubPrMerge {
                workspace_ref: r,
            } && r@ == workspace_ref@,
            GithubPrAction::Close { workspace_ref } => request matches CliRpcRequest::GithubPrClose {
                workspace_ref: r,
            } && r@ == workspace_ref@,
        },
{
}

} // verus!
