//! Forge CLI (`gh` / `glab`) invocations: the shape of their captured
//! output, how a failure is described, and how a call is routed.
use vstd::prelude::*;
use vstd::string::StringExecFns;
use crate::text::{
    chars_of, push_str, signed_decimal, string_from_chars, trim, trim_chars,
};

verus! {

/// A finished forge command: its decoded output, whether it exited
/// successfully, and its exit code when it exited normally.
#[derive(Debug, Clone)]
pub struct CommandOutput {
    pub stdout: String,
    pub stderr: String,
    pub success: bool,
    pub status: Option<i32>,
}

/// The wire-compatible result of a forge command run on this machine.
#[derive(Debug, Clone)]
pub struct ForgeLocalResult {
    pub stdout: String,
    pub stderr: String,
    pub exit_code: Option<i32>,
}

/// How long a forge command may run when the caller sets no limit.
pub const DEFAULT_COMMAND_TIMEOUT_MS: u64 = 15000;

/// The time limit of a local forge run: the caller's, else the default.
pub fn forge_timeout_ms(timeout_ms: Option<u64>) -> (ms: u64)
    ensures
        ms == match timeout_ms {
            Some(t) => t,
            None => 15000,
        },
{
    match timeout_ms {
        Some(t) => t,
        None => DEFAULT_COMMAND_TIMEOUT_MS,
    }
}

/// The result of a local forge run, from its captured output.
pub fn forge_local_result(output: CommandOutput) -> (r: ForgeLocalResult)
    ensures
        r.stdout == output.stdout,
        r.stderr == output.stderr,
        r.exit_code == output.status,
{
    ForgeLocalResult { stdout: output.stdout, stderr: output.stderr, exit_code: output.status }
}

/// A forge command that a remote runtime ran: it succeeded exactly when
/// it exited with code 0.
pub fn remote_command_output(stdout: String, stderr: String, exit_code: Option<i32>) -> (o: CommandOutput)
    ensures
        o.stdout == stdout,
        o.stderr == stderr,
        o.status == exit_code,
        o.success == (exit_code == Some(0i32)),
{
    let success = match exit_code {
        Some(code) => code == 0,
        None => false,
    };
    CommandOutput { stdout, stderr, success, status: exit_code }
}

/// How a runtime bound to a forge runner reports itself.
#[derive(Debug, Clone, Copy, PartialEq, Eq, Structural)]
pub enum RuntimeKind {
    Local,
    Remote,
}

/// Whether a runner routes through the local command path: it has no
/// bound runtime (`None`), or its bound runtime's health check answered
/// (`Some(Some(kind))`) that it is local. A health check that failed
/// (`Some(None)`) does not count as local.
pub fn runner_is_local(bound_health: Option<Option<RuntimeKind>>) -> (local: bool)
    ensures
        local == match bound_health {
            None => true,
            Some(Some(kind)) => kind == RuntimeKind::Local,
            Some(None) => false,
        },
{
    match bound_health {
        None => true,
        Some(Some(kind)) => kind == RuntimeKind::Local,
        Some(None) => false,
    }
}

/// The message that describes a failed command: its trimmed standard
/// error if any, else its trimmed standard output if any, else its exit
/// code, else a generic notice.
pub open spec fn detail_of(o: CommandOutput) -> Seq<char> {
    if trim(o.stderr@).len() > 0 {
        trim(o.stderr@)
    } else if trim(o.stdout@).len() > 0 {
        trim(o.stdout@)
    } else {
        match o.status {
            Some(code) => "command exited with status "@ + signed_decimal(code as int),
            None => "command exited unsuccessfully"@,
        }
    }
}

/// Describes what went wrong with a command.
pub fn command_detail(output: &CommandOutput) -> (d: String)
    ensures
        d@ == detail_of(*output),
{
    let err = chars_of(output.stderr.as_str());
    let err = trim_chars(&err);
    if err.len() > 0 {
        return string_from_chars(&err);
    }
    let out = chars_of(output.stdout.as_str());
    let out = trim_chars(&out);
    if out.len() > 0 {
        return string_from_chars(&out);
    }
    match output.status {
        Some(code) => {
            let mut d: Vec<char> = Vec::new();
            push_str(&mut d, "command exited with status ");
            crate::text::push_signed_decimal(&mut d, code as i64);
            string_from_chars(&d)
        },
        None => "command exited unsuccessfully".to_owned(),
    }
}

/// A failed command is explained by its own error output first, then its
/// standard output, then its exit code; the explanation is never empty.
pub proof fn law_failure_explained_by_stderr_first(o: CommandOutput)
    ensures
        trim(o.stderr@).len() > 0 ==> detail_of(o) == trim(o.stderr@),
        trim(o.stderr@).len() == 0 && trim(o.stdout@).len() > 0 ==> detail_of(o) == trim(
            o.stdout@,
        ),
        trim(o.stderr@).len() == 0 && trim(o.stdout@).len() == 0 ==> match o.status {
            Some(code) => detail_of(o) == "command exited with status "@ + signed_decimal(
                code as int,
            ),
            None => detail_of(o) == "command exited unsuccessfully"@,
        },
        detail_of(o).len() > 0,
{
    reveal_strlit("command exited unsuccessfully");
    reveal_strlit("command exited with status ");
}

} // verus!
