//! `helmor doctor`: a one-shot diagnostic snapshot of local and remote
//! state. Each probe becomes a [`DoctorCheck`] with an ok / warn /
//! error status; checks are grouped into titled sections. A report
//! "has errors" when any check is an error; that decides the exit code.
use vstd::prelude::*;
use vstd::string::StringExecFns;
use crate::text::{
    chars_of, char_views, contains, contains_chars, decimal, first_n, join, join_chars, lines,
    lines_of, push_all, push_decimal, push_str, split_newline_chars, split_newlines,
    string_from_chars, trim, trim_chars, no_newline, strip_cr,
};

verus! {

/// The outcome class of one diagnostic check.
#[derive(Debug, Clone, Copy, PartialEq, Eq, Structural)]
pub enum DoctorStatus {
    /// The check passed (`ok` on the wire).
    Pass,
    Warn,
    Error,
}

/// One named diagnostic row.
#[derive(Debug, Clone)]
pub struct DoctorCheck {
    pub name: String,
    pub status: DoctorStatus,
    pub detail: String,
}

/// A titled group of checks (`Local`, or one per remote runtime).
#[derive(Debug, Clone)]
pub struct DoctorSection {
    pub title: String,
    pub checks: Vec<DoctorCheck>,
}

/// The whole diagnostic snapshot.
#[derive(Debug, Clone)]
pub struct DoctorReport {
    pub sections: Vec<DoctorSection>,
}

/// `c` has exactly this name, status and detail.
pub open spec fn check_is(c: DoctorCheck, name: Seq<char>, status: DoctorStatus, detail: Seq<char>) -> bool {
    &&& c.name@ == name
    &&& c.status == status
    &&& c.detail@ == detail
}

/// Some check of some section of `r` has status `st`.
pub open spec fn report_has(r: DoctorReport, st: DoctorStatus) -> bool {
    exists|i: int, j: int|
        0 <= i < r.sections@.len() && 0 <= j < r.sections@[i].checks@.len()
            && #[trigger] r.sections@[i].checks@[j].status == st
}

fn make_check(name: &str, status: DoctorStatus, detail: &str) -> (c: DoctorCheck)
    ensures
        check_is(c, name@, status, detail@),
{
    DoctorCheck { name: name.to_owned(), status, detail: detail.to_owned() }
}

impl DoctorCheck {
    /// A passing check.
    pub fn ok(name: &str, detail: &str) -> (c: DoctorCheck)
        ensures
            check_is(c, name@, DoctorStatus::Pass, detail@),
    {
        make_check(name, DoctorStatus::Pass, detail)
    }

    /// A check that found something worth a look but not fatal.
    pub fn warn(name: &str, detail: &str) -> (c: DoctorCheck)
        ensures
            check_is(c, name@, DoctorStatus::Warn, detail@),
    {
        make_check(name, DoctorStatus::Warn, detail)
    }

    /// A failing check.
    pub fn error(name: &str, detail: &str) -> (c: DoctorCheck)
        ensures
            check_is(c, name@, DoctorStatus::Error, detail@),
    {
        make_check(name, DoctorStatus::Error, detail)
    }
}

impl DoctorReport {
    fn has_status(&self, st: DoctorStatus) -> (b: bool)
        ensures
            b == report_has(*self, st),
    {
        let n = self.sections.len();
        for i in 0..n
            invariant
                n == self.sections@.len(),
                forall|a: int, b: int|
                    0 <= a < i && 0 <= b < self.sections@[a].checks@.len()
                        ==> #[trigger] self.sections@[a].checks@[b].status != st,
        {
            let checks = &self.sections[i].checks;
            let m = checks.len();
            for j in 0..m
                invariant
                    n == self.sections@.len(),
                    i < n,
                    checks == self.sections@[i as int].checks,
                    m == checks@.len(),
                    forall|b: int| 0 <= b < j ==> #[trigger] checks@[b].status != st,
            {
                if checks[j].status == st {
                    return true;
                }
            }
        }
        false
    }

    /// Whether any check in the report is an error.
    pub fn has_errors(&self) -> (b: bool)
        ensures
            b == report_has(*self, DoctorStatus::Error),
    {
        self.has_status(DoctorStatus::Error)
    }

    /// Whether any check in the report is a warning.
    pub fn has_warns(&self) -> (b: bool)
        ensures
            b == report_has(*self, DoctorStatus::Warn),
    {
        self.has_status(DoctorStatus::Warn)
    }
}

/// Every line of `s` (in the sense of `str::lines`) with `prefix` in
/// front, joined by newlines.
pub open spec fn indented(s: Seq<char>, prefix: Seq<char>) -> Seq<char> {
    join(lines(s).map_values(|l: Seq<char>| prefix + l), seq!['\n'])
}

/// Prefixes every line of `s` with `prefix`.
pub fn indent(s: &str, prefix: &str) -> (r: String)
    ensures
        r@ == indented(s@, prefix@),
{
    let cs = chars_of(s);
    let r = indent_chars(&cs, prefix);
    string_from_chars(&r)
}

fn indent_chars(cs: &Vec<char>, prefix: &str) -> (r: Vec<char>)
    ensures
        r@ == indented(cs@, prefix@),
{
    let ls = lines_of(cs);
    let p = chars_of(prefix);
    let mut prefixed: Vec<Vec<char>> = Vec::new();
    let n = ls.len();
    for i in 0..n
        invariant
            n == ls@.len(),
            p@ == prefix@,
            char_views(prefixed@) == char_views(ls@).map_values(|l: Seq<char>| prefix@ + l).take(
                i as int,
            ),
    {
        let mut line: Vec<char> = Vec::new();
        push_all(&mut line, &p);
        push_all(&mut line, &ls[i]);
        assert(line@ == prefix@ + char_views(ls@)[i as int]);
        let ghost before = char_views(prefixed@);
        prefixed.push(line);
        assert(char_views(prefixed@) =~= before.push(prefix@ + char_views(ls@)[i as int]));
        assert(char_views(prefixed@) =~= char_views(ls@).map_values(|l: Seq<char>| prefix@ + l).take(
            i + 1,
        ));
    }
    assert(char_views(ls@).map_values(|l: Seq<char>| prefix@ + l).take(n as int) =~= char_views(
        ls@,
    ).map_values(|l: Seq<char>| prefix@ + l));
    let mut sep: Vec<char> = Vec::new();
    sep.push('\n');
    assert(sep@ =~= seq!['\n']);
    join_chars(&prefixed, &sep)
}

fn check_with_detail(name: &str, status: DoctorStatus, detail: &Vec<char>) -> (c: DoctorCheck)
    ensures
        check_is(c, name@, status, detail@),
{
    let d = string_from_chars(detail);
    DoctorCheck { name: name.to_owned(), status, detail: d }
}

// ---------------------------------------------------------------------
// Local checks
// ---------------------------------------------------------------------

/// What the local probes found about the data directory: its path as
/// displayed, its size in MB already rendered with one decimal, the
/// path of the desktop's ui-sync socket and whether that socket exists.
pub struct DataDirProbe {
    pub display: String,
    pub size_mb: String,
    pub socket_display: String,
    pub socket_present: bool,
}

/// The detail of the data-directory check: `"{path} ({size} MB)"`.
pub open spec fn data_dir_detail(p: DataDirProbe) -> Seq<char> {
    p.display@ + " ("@ + p.size_mb@ + " MB)"@
}

/// The "desktop running" check for a socket path that is or is not present.
pub open spec fn desktop_check_is(c: DoctorCheck, p: DataDirProbe) -> bool {
    if p.socket_present {
        check_is(c, "desktop running"@, DoctorStatus::Pass, "ui-sync socket present at "@ + p.socket_display@)
    } else {
        check_is(
            c,
            "desktop running"@,
            DoctorStatus::Warn,
            "no ui-sync socket at "@ + p.socket_display@ + " — desktop probably not running"@,
        )
    }
}

/// `checks` are the checks of the `Local` section for this lookup result.
pub open spec fn local_checks_are(checks: Seq<DoctorCheck>, data_dir: Result<DataDirProbe, String>) -> bool {
    match data_dir {
        Ok(p) => {
            &&& checks.len() == 2
            &&& check_is(checks[0], "data directory"@, DoctorStatus::Pass, data_dir_detail(p))
            &&& desktop_check_is(checks[1], p)
        },
        Err(e) => {
            &&& checks.len() == 1
            &&& check_is(checks[0], "data directory"@, DoctorStatus::Error, e@)
        },
    }
}

/// The checks of the `Local` section. When the data directory could be
/// located, it is reported with its size, followed by whether the
/// desktop's socket is present (a warning when it is not); otherwise the
/// single check is an error carrying the lookup's message.
pub fn local_checks(data_dir: &Result<DataDirProbe, String>) -> (checks: Vec<DoctorCheck>)
    ensures
        local_checks_are(checks@, *data_dir),
{
    let mut checks: Vec<DoctorCheck> = Vec::new();
    match data_dir {
        Ok(p) => {
            let mut d: Vec<char> = Vec::new();
            push_str(&mut d, p.display.as_str());
            push_str(&mut d, " (");
            push_str(&mut d, p.size_mb.as_str());
            push_str(&mut d, " MB)");
            checks.push(check_with_detail("data directory", DoctorStatus::Pass, &d));
            let mut s: Vec<char> = Vec::new();
            if p.socket_present {
                push_str(&mut s, "ui-sync socket present at ");
                push_str(&mut s, p.socket_display.as_str());
                checks.push(check_with_detail("desktop running", DoctorStatus::Pass, &s));
            } else {
                push_str(&mut s, "no ui-sync socket at ");
                push_str(&mut s, p.socket_display.as_str());
                push_str(&mut s, " — desktop probably not running");
                checks.push(check_with_detail("desktop running", DoctorStatus::Warn, &s));
            }
        },
        Err(e) => {
            checks.push(DoctorCheck::error("data directory", e.as_str()));
        },
    }
    checks
}

// ---------------------------------------------------------------------
// Remote (SSH) checks
// ---------------------------------------------------------------------

/// What one `ssh` probe came back with. `status` is the exit status as
/// the platform renders it; `stdout` and `stderr` are the captured
/// output decoded as text.
pub enum ProbeOutcome {
    Finished { success: bool, status: String, stdout: String, stderr: String },
    SpawnFailed { message: String },
}

/// The probes run against a remote host, in order.
#[derive(Debug, Clone, Copy, PartialEq, Eq, Structural)]
pub enum SshProbe {
    /// `echo ok`: is the host reachable at all.
    Reachable,
    /// `ls -la` of the daemon binary.
    DaemonBinary,
    /// `tail -5` of the daemon log.
    DaemonLog,
}

/// The probe finished with a zero exit status.
pub open spec fn probe_succeeded(o: ProbeOutcome) -> bool {
    o matches ProbeOutcome::Finished { success, .. } && success
}

/// The remote command that `probe` runs.
pub open spec fn probe_command(probe: SshProbe) -> Seq<Seq<char>> {
    match probe {
        SshProbe::Reachable => seq!["echo"@, "ok"@],
        SshProbe::DaemonBinary => seq!["ls"@, "-la"@, "$HOME/.helmor/server/helmor-server"@],
        SshProbe::DaemonLog => seq!["tail"@, "-5"@, "$HOME/.helmor/server/daemon.log"@],
    }
}

/// The arguments handed to `ssh`: non-interactive, a 5 s connect
/// timeout and a 10 s keep-alive, then the host and the probe's command.
pub open spec fn probe_args(host: Seq<char>, probe: SshProbe) -> Seq<Seq<char>> {
    seq![
        "-o"@,
        "BatchMode=yes"@,
        "-o"@,
        "ConnectTimeout=5"@,
        "-o"@,
        "ServerAliveInterval=10"@,
        host,
    ] + probe_command(probe)
}

fn push_string(v: &mut Vec<String>, s: &str)
    ensures
        final(v)@.len() == old(v)@.len() + 1,
        forall|i: int| 0 <= i < old(v)@.len() ==> final(v)@[i] == old(v)@[i],
        final(v)@.last()@ == s@,
{
    v.push(s.to_owned());
}

/// The arguments of `ssh` for one probe of `host`.
pub fn ssh_probe_args(host: &str, probe: SshProbe) -> (args: Vec<String>)
    ensures
        args@.map_values(|a: String| a@) == probe_args(host@, probe),
{
    let mut v: Vec<String> = Vec::new();
    push_string(&mut v, "-o");
    push_string(&mut v, "BatchMode=yes");
    push_string(&mut v, "-o");
    push_string(&mut v, "ConnectTimeout=5");
    push_string(&mut v, "-o");
    push_string(&mut v, "ServerAliveInterval=10");
    push_string(&mut v, host);
    match probe {
        SshProbe::Reachable => {
            push_string(&mut v, "echo");
            push_string(&mut v, "ok");
        },
        SshProbe::DaemonBinary => {
            push_string(&mut v, "ls");
            push_string(&mut v, "-la");
            push_string(&mut v, "$HOME/.helmor/server/helmor-server");
        },
        SshProbe::DaemonLog => {
            push_string(&mut v, "tail");
            push_string(&mut v, "-5");
            push_string(&mut v, "$HOME/.helmor/server/daemon.log");
        },
    }
    assert(v@.map_values(|a: String| a@) =~= probe_args(host@, probe));
    v
}

/// Which probe comes after the outcomes already gathered, if any. The
/// reachability probe comes first; when it did not succeed the
/// downstream probes are skipped.
pub open spec fn next_probe_spec(done: Seq<ProbeOutcome>) -> Option<SshProbe> {
    if done.len() == 0 {
        Some(SshProbe::Reachable)
    } else if done.len() == 1 {
        if probe_succeeded(done[0]) {
            Some(SshProbe::DaemonBinary)
        } else {
            None
        }
    } else if done.len() == 2 {
        Some(SshProbe::DaemonLog)
    } else {
        None
    }
}

/// The next probe to run against a host, given the outcomes so far;
/// `None` when the run is complete.
pub fn next_ssh_probe(done: &Vec<ProbeOutcome>) -> (next: Option<SshProbe>)
    ensures
        next == next_probe_spec(done@),
{
    let n = done.len();
    if n == 0 {
        Some(SshProbe::Reachable)
    } else if n == 1 {
        match &done[0] {
            ProbeOutcome::Finished { success, .. } => {
                if *success {
                    Some(SshProbe::DaemonBinary)
                } else {
                    None
                }
            },
            ProbeOutcome::SpawnFailed { .. } => None,
        }
    } else if n == 2 {
        Some(SshProbe::DaemonLog)
    } else {
        None
    }
}

/// A complete probe run: reachability alone when it failed, all three
/// probes otherwise.
pub open spec fn probe_run_complete(done: Seq<ProbeOutcome>) -> bool {
    ||| done.len() == 1 && !probe_succeeded(done[0])
    ||| done.len() == 3 && probe_succeeded(done[0])
}

/// The first two lines of the trimmed standard error, joined by `" / "`.
pub open spec fn stderr_summary(stderr: Seq<char>) -> Seq<char> {
    join(first_n(lines(trim(stderr)), 2), " / "@)
}

/// The reachability check for the first probe, which took `elapsed_ms`.
pub open spec fn reach_check_is(c: DoctorCheck, o: ProbeOutcome, elapsed_ms: nat) -> bool {
    match o {
        ProbeOutcome::Finished { success, status, stderr, .. } => if success {
            check_is(c, "ssh reachable"@, DoctorStatus::Pass, "connected in "@ + decimal(elapsed_ms) + "ms"@)
        } else {
            check_is(
                c,
                "ssh reachable"@,
                DoctorStatus::Error,
                "ssh failed (exit "@ + status@ + "): "@ + stderr_summary(stderr@),
            )
        },
        ProbeOutcome::SpawnFailed { message } => check_is(
            c,
            "ssh reachable"@,
            DoctorStatus::Error,
            "ssh spawn failed: "@ + message@,
        ),
    }
}

/// The daemon-binary check: the trimmed `ls` line when the binary is
/// there, an error otherwise.
pub open spec fn binary_check_is(c: DoctorCheck, o: ProbeOutcome) -> bool {
    match o {
        ProbeOutcome::Finished { success, stdout, .. } => if success {
            check_is(c, "daemon binary"@, DoctorStatus::Pass, trim(stdout@))
        } else {
            check_is(
                c,
                "daemon binary"@,
                DoctorStatus::Error,
                "$HOME/.helmor/server/helmor-server not found — the desktop's install gate should drop it there on first connect"@,
            )
        },
        ProbeOutcome::SpawnFailed { message } => check_is(
            c,
            "daemon binary"@,
            DoctorStatus::Error,
            "probe failed: "@ + message@,
        ),
    }
}

/// The detail of a readable daemon log: its last lines, indented.
pub open spec fn log_detail(log: Seq<char>) -> Seq<char> {
    if log.len() == 0 {
        "log file empty"@
    } else {
        "last 5 lines:\n"@ + indented(log, "    "@)
    }
}

/// An `ERROR` in the log tail makes the check an error, else a `WARN`
/// makes it a warning, else it passes.
pub open spec fn log_status(log: Seq<char>) -> DoctorStatus {
    if contains(log, "ERROR"@) {
        DoctorStatus::Error
    } else if contains(log, "WARN"@) {
        DoctorStatus::Warn
    } else {
        DoctorStatus::Pass
    }
}

/// The daemon-log check: graded by the trimmed tail's content when it
/// could be read, a warning otherwise.
pub open spec fn log_check_is(c: DoctorCheck, o: ProbeOutcome) -> bool {
    match o {
        ProbeOutcome::Finished { success, stdout, .. } => if success {
            check_is(c, "daemon log tail"@, log_status(trim(stdout@)), log_detail(trim(stdout@)))
        } else {
            check_is(
                c,
                "daemon log tail"@,
                DoctorStatus::Warn,
                "$HOME/.helmor/server/daemon.log not found or unreadable"@,
            )
        },
        ProbeOutcome::SpawnFailed { message } => check_is(
            c,
            "daemon log tail"@,
            DoctorStatus::Warn,
            "probe failed: "@ + message@,
        ),
    }
}

fn reach_check(o: &ProbeOutcome, elapsed_ms: u128) -> (c: DoctorCheck)
    ensures
        reach_check_is(c, *o, elapsed_ms as nat),
{
    let mut d: Vec<char> = Vec::new();
    match o {
        ProbeOutcome::Finished { success, status, stderr, .. } => {
            if *success {
                push_str(&mut d, "connected in ");
                push_decimal(&mut d, elapsed_ms);
                push_str(&mut d, "ms");
                check_with_detail("ssh reachable", DoctorStatus::Pass, &d)
            } else {
                push_str(&mut d, "ssh failed (exit ");
                push_str(&mut d, status.as_str());
                push_str(&mut d, "): ");
                let summary = stderr_summary_chars(stderr.as_str());
                push_all(&mut d, &summary);
                check_with_detail("ssh reachable", DoctorStatus::Error, &d)
            }
        },
        ProbeOutcome::SpawnFailed { message } => {
            push_str(&mut d, "ssh spawn failed: ");
            push_str(&mut d, message.as_str());
            check_with_detail("ssh reachable", DoctorStatus::Error, &d)
        },
    }
}

fn stderr_summary_chars(stderr: &str) -> (r: Vec<char>)
    ensures
        r@ == stderr_summary(stderr@),
{
    let cs = chars_of(stderr);
    let t = trim_chars(&cs);
    let ls = lines_of(&t);
    let mut firsts: Vec<Vec<char>> = Vec::new();
    let n = ls.len();
    let k: usize = if n < 2 { n } else { 2 };
    let mut i: usize = 0;
    while i < k
        invariant
            n == ls@.len(),
            k <= n,
            k == if n < 2 { n } else { 2 },
            i <= k,
            char_views(firsts@) == char_views(ls@).take(i as int),
        decreases k - i,
    {
        let line = crate::text::subrange_chars(&ls[i], 0, ls[i].len());
        assert(line@ =~= char_views(ls@)[i as int]);
        let ghost before = char_views(firsts@);
        firsts.push(line);
        assert(char_views(firsts@) =~= before.push(char_views(ls@)[i as int]));
        assert(char_views(firsts@) =~= char_views(ls@).take(i + 1));
        i = i + 1;
    }
    assert(char_views(firsts@) =~= first_n(lines(trim(stderr@)), 2));
    let mut sep: Vec<char> = Vec::new();
    push_str(&mut sep, " / ");
    join_chars(&firsts, &sep)
}

fn binary_check(o: &ProbeOutcome) -> (c: DoctorCheck)
    ensures
        binary_check_is(c, *o),
{
    match o {
        ProbeOutcome::Finished { success, stdout, .. } => {
            if *success {
                let cs = chars_of(stdout.as_str());
                let t = trim_chars(&cs);
                check_with_detail("daemon binary", DoctorStatus::Pass, &t)
            } else {
                DoctorCheck::error(
                    "daemon binary",
                    "$HOME/.helmor/server/helmor-server not found — the desktop's install gate should drop it there on first connect",
                )
            }
        },
        ProbeOutcome::SpawnFailed { message } => {
            let mut d: Vec<char> = Vec::new();
            push_str(&mut d, "probe failed: ");
            push_str(&mut d, message.as_str());
            check_with_detail("daemon binary", DoctorStatus::Error, &d)
        },
    }
}

fn log_check(o: &ProbeOutcome) -> (c: DoctorCheck)
    ensures
        log_check_is(c, *o),
{
    match o {
        ProbeOutcome::Finished { success, stdout, .. } => {
            if *success {
                let cs = chars_of(stdout.as_str());
                let t = trim_chars(&cs);
                let err_word = chars_of("ERROR");
                let warn_word = chars_of("WARN");
                let has_err = contains_chars(&t, &err_word);
                let has_warn = contains_chars(&t, &warn_word);
                let mut d: Vec<char> = Vec::new();
                if t.len() == 0 {
                    push_str(&mut d, "log file empty");
                } else {
                    push_str(&mut d, "last 5 lines:\n");
                    let body = indent_chars(&t, "    ");
                    push_all(&mut d, &body);
                }
                let status = if has_err {
                    DoctorStatus::Error
                } else if has_warn {
                    DoctorStatus::Warn
                } else {
                    DoctorStatus::Pass
                };
                check_with_detail("daemon log tail", status, &d)
            } else {
                DoctorCheck::warn(
                    "daemon log tail",
                    "$HOME/.helmor/server/daemon.log not found or unreadable",
                )
            }
        },
        ProbeOutcome::SpawnFailed { message } => {
            let mut d: Vec<char> = Vec::new();
            push_str(&mut d, "probe failed: ");
            push_str(&mut d, message.as_str());
            check_with_detail("daemon log tail", DoctorStatus::Warn, &d)
        },
    }
}

/// `checks` are the checks of one SSH remote whose probes gave `done`,
/// the first one taking `elapsed_ms`.
pub open spec fn remote_checks_are(checks: Seq<DoctorCheck>, elapsed_ms: nat, done: Seq<ProbeOutcome>) -> bool {
    &&& checks.len() == done.len()
    &&& reach_check_is(checks[0], done[0], elapsed_ms)
    &&& done.len() == 3 ==> binary_check_is(checks[1], done[1]) && log_check_is(checks[2], done[2])
}

/// The checks of one SSH remote from a complete probe run: the
/// reachability check, then, when the host was reachable, the daemon
/// binary and daemon log checks.
pub fn remote_ssh_checks(elapsed_ms: u128, done: &Vec<ProbeOutcome>) -> (checks: Vec<DoctorCheck>)
    requires
        probe_run_complete(done@),
    ensures
        remote_checks_are(checks@, elapsed_ms as nat, done@),
{
    let mut checks: Vec<DoctorCheck> = Vec::new();
    checks.push(reach_check(&done[0], elapsed_ms));
    if done.len() == 3 {
        checks.push(binary_check(&done[1]));
        checks.push(log_check(&done[2]));
    }
    checks
}

// ---------------------------------------------------------------------
// Report assembly
// ---------------------------------------------------------------------

/// How a configured runtime is reached.
pub enum RuntimeConnectionConfig {
    /// The desktop's own machine; not probed.
    Local,
    /// A host reached over `ssh`.
    Ssh { host: String },
    /// A custom transport command line.
    Command { argv: Vec<String> },
}

/// A configured runtime, by name.
pub struct RuntimeEntry {
    pub name: String,
    pub config: RuntimeConnectionConfig,
}

/// The section title of a remote runtime.
pub open spec fn remote_title(e: RuntimeEntry) -> Seq<char> {
    match e.config {
        RuntimeConnectionConfig::Ssh { host } => "Remote: "@ + e.name@ + " (ssh "@ + host@ + ")"@,
        RuntimeConnectionConfig::Command { argv } => "Remote: "@ + e.name@ + " (command "@ + (
        if argv@.len() > 0 {
            argv@[0]@
        } else {
            Seq::empty()
        }) + ")"@,
        RuntimeConnectionConfig::Local => Seq::empty(),
    }
}

/// The one check of a non-SSH remote: a notice that it is not probed.
pub open spec fn transport_notice_is(c: DoctorCheck) -> bool {
    check_is(
        c,
        "transport"@,
        DoctorStatus::Warn,
        "non-SSH transport — doctor only probes SSH today; check the daemon manually on the remote"@,
    )
}

/// The positions of the entries that are not local, in order.
pub open spec fn remote_positions(entries: Seq<RuntimeEntry>) -> Seq<int>
    decreases entries.len(),
{
    if entries.len() == 0 {
        Seq::empty()
    } else {
        let before = remote_positions(entries.drop_last());
        if entries.last().config is Local {
            before
        } else {
            before.push(entries.len() - 1)
        }
    }
}

/// One SSH probe run against a host: how long the reachability probe
/// took, and the outcomes of the probes in order.
pub struct SshProbeRun {
    pub elapsed_ms: u128,
    pub outcomes: Vec<ProbeOutcome>,
}

/// The host an entry is probed on: SSH entries only, on their own host.
pub open spec fn ssh_host(e: RuntimeEntry) -> Option<Seq<char>> {
    match e.config {
        RuntimeConnectionConfig::Ssh { host } => Some(host@),
        _ => None,
    }
}

/// `hosts[i]` is the host to probe for entry `i`: none at all when the
/// data directory could not be found, else the host of each SSH entry
/// and none for every other entry.
pub open spec fn hosts_planned(
    hosts: Seq<Option<String>>,
    data_dir: Result<DataDirProbe, String>,
    entries: Seq<RuntimeEntry>,
) -> bool {
    &&& hosts.len() == entries.len()
    &&& forall|i: int|
        0 <= i < hosts.len() ==> match #[trigger] hosts[i] {
            Some(h) => data_dir is Ok && ssh_host(entries[i]) == Some(h@),
            None => data_dir is Err || ssh_host(entries[i]) is None,
        }
}

/// The probe runs handed to the report: one complete run for each SSH
/// entry, in place, and none for any other entry.
pub open spec fn probes_fit(entries: Seq<RuntimeEntry>, probes: Seq<Option<SshProbeRun>>) -> bool {
    &&& probes.len() == entries.len()
    &&& forall|i: int|
        0 <= i < probes.len() ==> match #[trigger] probes[i] {
            Some(run) => entries[i].config is Ssh && probe_run_complete(run.outcomes@),
            None => !(entries[i].config is Ssh),
        }
}

/// `s` is the section of remote entry `e`, whose SSH probes (if any) gave `run`.
pub open spec fn remote_section_is(s: DoctorSection, e: RuntimeEntry, run: Option<SshProbeRun>) -> bool {
    &&& s.title@ == remote_title(e)
    &&& match e.config {
        RuntimeConnectionConfig::Ssh { .. } => run matches Some(r) && remote_checks_are(
            s.checks@,
            r.elapsed_ms as nat,
            r.outcomes@,
        ),
        RuntimeConnectionConfig::Command { .. } => s.checks@.len() == 1 && transport_notice_is(
            s.checks@[0],
        ),
        RuntimeConnectionConfig::Local => false,
    }
}

proof fn lemma_remote_positions_bounded(entries: Seq<RuntimeEntry>)
    ensures
        forall|k: int|
            0 <= k < remote_positions(entries).len() ==> 0 <= #[trigger] remote_positions(
                entries,
            )[k] < entries.len() && !(entries[remote_positions(entries)[k]].config is Local),
    decreases entries.len(),
{
    if entries.len() > 0 {
        lemma_remote_positions_bounded(entries.drop_last());
    }
}

/// The title of a remote runtime's section, `None` for the local runtime.
fn remote_title_chars(e: &RuntimeEntry) -> (t: Option<Vec<char>>)
    ensures
        e.config is Local <==> t is None,
        t matches Some(t) ==> t@ == remote_title(*e),
{
    let mut t: Vec<char> = Vec::new();
    match &e.config {
        RuntimeConnectionConfig::Local => None,
        RuntimeConnectionConfig::Ssh { host } => {
            push_str(&mut t, "Remote: ");
            push_str(&mut t, e.name.as_str());
            push_str(&mut t, " (ssh ");
            push_str(&mut t, host.as_str());
            push_str(&mut t, ")");
            Some(t)
        },
        RuntimeConnectionConfig::Command { argv } => {
            push_str(&mut t, "Remote: ");
            push_str(&mut t, e.name.as_str());
            push_str(&mut t, " (command ");
            if argv.len() > 0 {
                push_str(&mut t, argv[0].as_str());
            }
            push_str(&mut t, ")");
            assert(t@ =~= remote_title(*e));
            Some(t)
        },
    }
}

/// Which host to probe for each runtime: the host of each SSH runtime,
/// once, and nothing for local or command runtimes. When the data
/// directory could not be found, nothing is probed at all.
pub fn probe_hosts(data_dir: &Result<DataDirProbe, String>, entries: &Vec<RuntimeEntry>) -> (hosts: Vec<Option<String>>)
    ensures
        hosts_planned(hosts@, *data_dir, entries@),
{
    let found = match data_dir {
        Ok(_) => true,
        Err(_) => false,
    };
    let mut hosts: Vec<Option<String>> = Vec::new();
    let n = entries.len();
    for i in 0..n
        invariant
            n == entries@.len(),
            found == (data_dir is Ok),
            hosts@.len() == i,
            forall|k: int|
                0 <= k < i ==> match #[trigger] hosts@[k] {
                    Some(h) => data_dir is Ok && ssh_host(entries@[k]) == Some(h@),
                    None => data_dir is Err || ssh_host(entries@[k]) is None,
                },
    {
        let host = match &entries[i].config {
            RuntimeConnectionConfig::Ssh { host } => if found {
                Some(host.as_str().to_owned())
            } else {
                None
            },
            _ => None,
        };
        hosts.push(host);
    }
    hosts
}

/// `r` is the report for this data-directory lookup, these runtimes and
/// these probe runs: the `Local` section first; nothing more when the
/// data directory could not be found; otherwise one section per
/// configured remote in order (local runtimes are skipped), where an SSH
/// remote carries the checks of its probe run and any other transport a
/// single notice that it is not probed.
pub open spec fn report_built(
    r: DoctorReport,
    data_dir: Result<DataDirProbe, String>,
    entries: Seq<RuntimeEntry>,
    probes: Seq<Option<SshProbeRun>>,
) -> bool {
    &&& r.sections@.len() >= 1
    &&& r.sections@[0].title@ == "Local"@
    &&& local_checks_are(r.sections@[0].checks@, data_dir)
    &&& data_dir is Err ==> r.sections@.len() == 1
    &&& data_dir is Ok ==> {
        &&& r.sections@.len() == 1 + remote_positions(entries).len()
        &&& forall|k: int|
            0 <= k < remote_positions(entries).len() ==> remote_section_is(
                #[trigger] r.sections@[k + 1],
                entries[remote_positions(entries)[k]],
                probes[remote_positions(entries)[k]],
            )
    }
}

/// Assembles the report from the data-directory lookup, the configured
/// runtimes and the probe runs of their SSH hosts (see [`probe_hosts`]).
pub fn build_report(
    data_dir: &Result<DataDirProbe, String>,
    entries: &Vec<RuntimeEntry>,
    probes: Vec<Option<SshProbeRun>>,
) -> (r: DoctorReport)
    requires
        data_dir is Ok ==> probes_fit(entries@, probes@),
    ensures
        report_built(r, *data_dir, entries@, probes@),
{
    let mut sections: Vec<DoctorSection> = Vec::new();
    let local = local_checks(data_dir);
    sections.push(DoctorSection { title: "Local".to_owned(), checks: local });
    if data_dir.is_err() {
        return DoctorReport { sections };
    }
    let ghost all = probes@;
    let mut remaining = probes;
    let n = entries.len();
    for i in 0..n
        invariant
            n == entries@.len(),
            probes_fit(entries@, all),
            remaining@ == all.skip(i as int),
            sections@.len() == 1 + remote_positions(entries@.take(i as int)).len(),
            sections@[0].title@ == "Local"@,
            local_checks_are(sections@[0].checks@, *data_dir),
            forall|k: int|
                0 <= k < remote_positions(entries@.take(i as int)).len() ==> remote_section_is(
                    #[trigger] sections@[k + 1],
                    entries@[remote_positions(entries@.take(i as int))[k]],
                    all[remote_positions(entries@.take(i as int))[k]],
                ),
    {
        let probed = remaining.remove(0);
        assert(probed == all[i as int]);
        assert(remaining@ =~= all.skip(i + 1));
        let ghost prefix = entries@.take(i as int);
        let ghost grown = entries@.take(i + 1);
        assert(grown.drop_last() =~= prefix);
        assert(grown.last() == entries@[i as int]);
        proof {
            lemma_remote_positions_bounded(prefix);
        }
        let ghost before = sections@;
        match remote_title_chars(&entries[i]) {
            None => {},
            Some(t) => {
                let title = string_from_chars(&t);
                let checks = match &entries[i].config {
                    RuntimeConnectionConfig::Ssh { .. } => match &probed {
                        Some(run) => remote_ssh_checks(run.elapsed_ms, &run.outcomes),
                        None => Vec::new(),
                    },
                    _ => {
                        let mut notice: Vec<DoctorCheck> = Vec::new();
                        notice.push(
                            DoctorCheck::warn(
                                "transport",
                                "non-SSH transport — doctor only probes SSH today; check the daemon manually on the remote",
                            ),
                        );
                        notice
                    },
                };
                sections.push(DoctorSection { title, checks });
                assert(remote_section_is(sections@[sections@.len() - 1], entries@[i as int], all[i as int]));
            },
        }
        assert forall|k: int|
            0 <= k < remote_positions(grown).len() implies remote_section_is(
            #[trigger] sections@[k + 1],
            entries@[remote_positions(grown)[k]],
            all[remote_positions(grown)[k]],
        ) by {
            if k < remote_positions(prefix).len() {
                assert(remote_positions(grown)[k] == remote_positions(prefix)[k]);
                assert(prefix[remote_positions(prefix)[k]] == entries@[remote_positions(prefix)[k]]);
                assert(sections@[k + 1] == before[k + 1]);
            }
        }
    }
    assert(entries@.take(n as int) =~= entries@);
    DoctorReport { sections }
}

// ---------------------------------------------------------------------
// Human-readable rendering
// ---------------------------------------------------------------------

/// The glyph that leads a check's row.
pub open spec fn status_symbol(st: DoctorStatus) -> Seq<char> {
    match st {
        DoctorStatus::Pass => "✓"@,
        DoctorStatus::Warn => "⚠"@,
        DoctorStatus::Error => "✗"@,
    }
}

/// One continuation line of a multi-line detail, nested under its row.
pub open spec fn continuation_line(l: Seq<char>) -> Seq<char> {
    "    "@ + l + seq!['\n']
}

/// A check's rows: the first line of its detail on the row naming the
/// check, every further line indented beneath it.
pub open spec fn check_rows(c: DoctorCheck) -> Seq<char> {
    let parts = split_newlines(c.detail@);
    "  "@ + status_symbol(c.status) + " "@ + c.name@ + ": "@ + parts[0] + seq!['\n']
        + parts.drop_first().map_values(|l: Seq<char>| continuation_line(l)).flatten()
}

/// A section: its title, its checks' rows, then a blank line.
pub open spec fn section_block(s: DoctorSection) -> Seq<char> {
    s.title@ + seq!['\n'] + s.checks@.map_values(|c: DoctorCheck| check_rows(c)).flatten()
        + seq!['\n']
}

/// The closing summary: errors first, then warnings, else all green.
pub open spec fn summary_line(r: DoctorReport) -> Seq<char> {
    if report_has(r, DoctorStatus::Error) {
        "Summary: errors present — see ✗ rows above.\n"@
    } else if report_has(r, DoctorStatus::Warn) {
        "Summary: warnings only — see ⚠ rows above.\n"@
    } else {
        "Summary: all checks green.\n"@
    }
}

/// The whole human-readable report.
pub open spec fn rendered(r: DoctorReport) -> Seq<char> {
    "helmor doctor\n\n"@ + r.sections@.map_values(|s: DoctorSection| section_block(s)).flatten()
        + summary_line(r)
}

fn push_status_symbol(out: &mut Vec<char>, st: DoctorStatus)
    ensures
        final(out)@ == old(out)@ + status_symbol(st),
{
    match st {
        DoctorStatus::Pass => push_str(out, "✓"),
        DoctorStatus::Warn => push_str(out, "⚠"),
        DoctorStatus::Error => push_str(out, "✗"),
    }
}

fn push_check_rows(out: &mut Vec<char>, c: &DoctorCheck)
    ensures
        final(out)@ == old(out)@ + check_rows(*c),
{
    let detail = chars_of(c.detail.as_str());
    let parts = split_newline_chars(&detail);
    proof {
        crate::text::lemma_split_newlines_nonempty(c.detail@);
    }
    let ghost ps = split_newlines(c.detail@);
    assert(parts@[0]@ == ps[0]);
    push_str(out, "  ");
    push_status_symbol(out, c.status);
    push_str(out, " ");
    push_str(out, c.name.as_str());
    push_str(out, ": ");
    push_all(out, &parts[0]);
    out.push('\n');
    let ghost head = out@;
    let ghost rest = ps.drop_first();
    let n = parts.len();
    for i in 1..n
        invariant
            n == parts@.len(),
            n >= 1,
            char_views(parts@) == ps,
            rest == ps.drop_first(),
            out@ == head + rest.map_values(|l: Seq<char>| continuation_line(l)).take(i - 1).flatten(),
    {
        push_str(out, "    ");
        push_all(out, &parts[i]);
        out.push('\n');
        proof {
            let f = |l: Seq<char>| continuation_line(l);
            let m = rest.map_values(f);
            assert(parts@[i as int]@ == rest[i - 1]);
            assert(m.take(i as int) =~= m.take(i - 1).push(f(rest[i - 1])));
            m.take(i - 1).lemma_flatten_push(f(rest[i - 1]));
            assert(out@ =~= head + m.take(i as int).flatten());
        }
    }
    proof {
        let m = rest.map_values(|l: Seq<char>| continuation_line(l));
        assert(m.take(n - 1) =~= m);
        assert(out@ =~= old(out)@ + check_rows(*c));
    }
}

fn push_section_block(out: &mut Vec<char>, s: &DoctorSection)
    ensures
        final(out)@ == old(out)@ + section_block(*s),
{
    push_str(out, s.title.as_str());
    out.push('\n');
    let ghost head = out@;
    let n = s.checks.len();
    for i in 0..n
        invariant
            n == s.checks@.len(),
            out@ == head + s.checks@.map_values(|c: DoctorCheck| check_rows(c)).take(
                i as int,
            ).flatten(),
    {
        push_check_rows(out, &s.checks[i]);
        proof {
            let f = |c: DoctorCheck| check_rows(c);
            let m = s.checks@.map_values(f);
            assert(m.take(i + 1) =~= m.take(i as int).push(f(s.checks@[i as int])));
            m.take(i as int).lemma_flatten_push(f(s.checks@[i as int]));
        }
    }
    proof {
        let m = s.checks@.map_values(|c: DoctorCheck| check_rows(c));
        assert(m.take(n as int) =~= m);
    }
    out.push('\n');
    assert(out@ =~= old(out)@ + section_block(*s));
}

/// The report as the human-readable text that `helmor doctor` prints:
/// a header, each section's checks with a status glyph, and a summary.
pub fn render_human(r: &DoctorReport) -> (text: String)
    ensures
        text@ == rendered(*r),
{
    let mut out: Vec<char> = Vec::new();
    push_str(&mut out, "helmor doctor\n\n");
    let ghost head = out@;
    let n = r.sections.len();
    for i in 0..n
        invariant
            n == r.sections@.len(),
            out@ == head + r.sections@.map_values(|s: DoctorSection| section_block(s)).take(
                i as int,
            ).flatten(),
    {
        push_section_block(&mut out, &r.sections[i]);
        proof {
            let f = |s: DoctorSection| section_block(s);
            let m = r.sections@.map_values(f);
            assert(m.take(i + 1) =~= m.take(i as int).push(f(r.sections@[i as int])));
            m.take(i as int).lemma_flatten_push(f(r.sections@[i as int]));
        }
    }
    proof {
        let m = r.sections@.map_values(|s: DoctorSection| section_block(s));
        assert(m.take(n as int) =~= m);
    }
    if r.has_errors() {
        push_str(&mut out, "Summary: errors present — see ✗ rows above.\n");
    } else if r.has_warns() {
        push_str(&mut out, "Summary: warnings only — see ⚠ rows above.\n");
    } else {
        push_str(&mut out, "Summary: all checks green.\n");
    }
    string_from_chars(&out)
}

/// The process exit code of `helmor doctor`: 1 when any check is an
/// error, 0 when everything passed or only warnings were found.
pub fn doctor_exit_code(r: &DoctorReport) -> (code: i32)
    ensures
        code == if report_has(*r, DoctorStatus::Error) {
            1i32
        } else {
            0i32
        },
{
    if r.has_errors() {
        1
    } else {
        0
    }
}

// ---------------------------------------------------------------------
// Laws
// ---------------------------------------------------------------------

/// When a host cannot be reached, no further probe is run against it and
/// the run is complete with that single outcome.
pub proof fn law_unreachable_host_is_not_probed_further(o: ProbeOutcome)
    requires
        !probe_succeeded(o),
    ensures
        next_probe_spec(seq![o]) is None,
        probe_run_complete(seq![o]),
{
}

/// A reachable host gets the binary probe and then the log probe, after
/// which the run is complete.
pub proof fn law_reachable_host_gets_every_probe(
    reach: ProbeOutcome,
    binary: ProbeOutcome,
    log: ProbeOutcome,
)
    requires
        probe_succeeded(reach),
    ensures
        next_probe_spec(Seq::empty()) == Some(SshProbe::Reachable),
        next_probe_spec(seq![reach]) == Some(SshProbe::DaemonBinary),
        next_probe_spec(seq![reach, binary]) == Some(SshProbe::DaemonLog),
        next_probe_spec(seq![reach, binary, log]) is None,
        probe_run_complete(seq![reach, binary, log]),
{
}

/// An unreachable host's section holds one check, and it is an error.
pub proof fn law_unreachable_host_reports_one_error(o: ProbeOutcome, c: DoctorCheck, ms: nat)
    requires
        !probe_succeeded(o),
        reach_check_is(c, o, ms),
    ensures
        c.status == DoctorStatus::Error,
{
}

/// A report whose checks include an error is summarised as having
/// errors, whatever warnings it also holds; one with warnings and no
/// errors is summarised as warnings only.
pub proof fn law_errors_outrank_warnings(r: DoctorReport)
    ensures
        report_has(r, DoctorStatus::Error) ==> summary_line(r)
            == "Summary: errors present — see ✗ rows above.\n"@,
        !report_has(r, DoctorStatus::Error) && report_has(r, DoctorStatus::Warn) ==> summary_line(
            r,
        ) == "Summary: warnings only — see ⚠ rows above.\n"@,
        !report_has(r, DoctorStatus::Error) && !report_has(r, DoctorStatus::Warn) ==> summary_line(
            r,
        ) == "Summary: all checks green.\n"@,
{
}

/// Indenting keeps the lines: the indented text's lines are the input
/// lines, each with the prefix in front. The prefix is one non-empty
/// line that does not end in a carriage return, and the input lines
/// do not end in one either.
pub proof fn law_indent_keeps_lines(s: Seq<char>, p: Seq<char>)
    requires
        p.len() > 0,
        no_newline(p),
        p.last() != '\r',
        forall|i: int|
            0 <= i < lines(s).len() ==> (#[trigger] lines(s)[i]).len() == 0 || lines(s)[i].last()
                != '\r',
    ensures
        lines(indented(s, p)) == lines(s).map_values(|l: Seq<char>| p + l),
{
    let ls = lines(s);
    let l2 = ls.map_values(|l: Seq<char>| p + l);
    if ls.len() == 0 {
        assert(indented(s, p) =~= Seq::<char>::empty());
        assert(split_newlines(Seq::<char>::empty()) =~= seq![Seq::<char>::empty()]);
        assert(lines(indented(s, p)) =~= l2);
    } else {
        crate::text::lemma_lines_have_no_newline(s);
        assert forall|i: int| 0 <= i < l2.len() implies no_newline(#[trigger] l2[i]) by {
            assert(no_newline(ls[i]));
            assert(l2[i] == p + ls[i]);
        }
        crate::text::lemma_split_join(l2);
        let t = indented(s, p);
        assert(split_newlines(t) == l2);
        assert forall|i: int| 0 <= i < l2.len() implies strip_cr(#[trigger] l2[i]) == l2[i] by {
            assert(l2[i] == p + ls[i]);
            if ls[i].len() > 0 {
                assert((p + ls[i]).last() == ls[i].last());
            } else {
                assert(p + ls[i] =~= p);
            }
        }
        assert(l2.last().len() > 0);
        assert(lines(t) =~= l2);
    }
}

/// When the data directory cannot be found, no runtime is probed and the
/// report is the `Local` section alone, whose one check is an error, so
/// the report has errors.
pub proof fn law_failed_lookup_reports_only_local(
    hosts: Seq<Option<String>>,
    r: DoctorReport,
    data_dir: Result<DataDirProbe, String>,
    entries: Seq<RuntimeEntry>,
    probes: Seq<Option<SshProbeRun>>,
)
    requires
        data_dir is Err,
        hosts_planned(hosts, data_dir, entries),
        report_built(r, data_dir, entries, probes),
    ensures
        forall|i: int| 0 <= i < hosts.len() ==> #[trigger] hosts[i] is None,
        r.sections@.len() == 1,
        report_has(r, DoctorStatus::Error),
{
    assert(r.sections@[0].checks@[0].status == DoctorStatus::Error);
}

/// Only SSH runtimes are probed, each once, on its own host; local and
/// command runtimes are never probed.
pub proof fn law_only_ssh_runtimes_are_probed(
    hosts: Seq<Option<String>>,
    data_dir: Result<DataDirProbe, String>,
    entries: Seq<RuntimeEntry>,
)
    requires
        data_dir is Ok,
        hosts_planned(hosts, data_dir, entries),
    ensures
        hosts.len() == entries.len(),
        forall|i: int|
            0 <= i < hosts.len() ==> match #[trigger] entries[i].config {
                RuntimeConnectionConfig::Ssh { host } => hosts[i] matches Some(h) && h@ == host@,
                _ => hosts[i] is None,
            },
{
    assert forall|i: int| 0 <= i < hosts.len() implies match #[trigger] entries[i].config {
        RuntimeConnectionConfig::Ssh { host } => hosts[i] matches Some(h) && h@ == host@,
        _ => hosts[i] is None,
    } by {
        assert(hosts_planned(hosts, data_dir, entries));
        let _ = hosts[i];
    }
}

/// The daemon-log check is an error whenever `ERROR` occurs anywhere in
/// the trimmed tail, on any line; otherwise a `WARN` anywhere makes it a
/// warning, and a tail with neither passes.
pub proof fn law_log_tail_graded_by_any_occurrence(
    c: DoctorCheck,
    status: String,
    stdout: String,
    stderr: String,
    before: Seq<char>,
    after: Seq<char>,
)
    requires
        log_check_is(c, ProbeOutcome::Finished { success: true, status, stdout, stderr }),
    ensures
        trim(stdout@) == before + "ERROR"@ + after ==> c.status == DoctorStatus::Error,
        trim(stdout@) == before + "WARN"@ + after && !contains(trim(stdout@), "ERROR"@)
            ==> c.status == DoctorStatus::Warn,
        !contains(trim(stdout@), "ERROR"@) && !contains(trim(stdout@), "WARN"@) ==> c.status
            == DoctorStatus::Pass,
{
    let t = trim(stdout@);
    if t == before + "ERROR"@ + after {
        let i = before.len() as int;
        assert(t.subrange(i, i + "ERROR"@.len()) =~= "ERROR"@);
        assert(contains(t, "ERROR"@));
    }
    if t == before + "WARN"@ + after {
        let i = before.len() as int;
        assert(t.subrange(i, i + "WARN"@.len()) =~= "WARN"@);
        assert(contains(t, "WARN"@));
    }
}

/// A reachable host's check reports the time its reachability probe took.
pub proof fn law_reachable_host_reports_its_elapsed_time(
    c: DoctorCheck,
    o: ProbeOutcome,
    elapsed_ms: nat,
)
    requires
        probe_succeeded(o),
        reach_check_is(c, o, elapsed_ms),
    ensures
        c.status == DoctorStatus::Pass,
        c.detail@ == "connected in "@ + decimal(elapsed_ms) + "ms"@,
{
}

/// In the assembled report, the section of an SSH remote whose host was
/// reachable opens with a passing reachability check that reports the
/// elapsed time of that remote's own probe run, and holds one check per
/// probe of that run.
pub proof fn law_ssh_section_reports_its_own_run(
    r: DoctorReport,
    data_dir: Result<DataDirProbe, String>,
    entries: Seq<RuntimeEntry>,
    probes: Seq<Option<SshProbeRun>>,
    k: int,
)
    requires
        report_built(r, data_dir, entries, probes),
        data_dir is Ok,
        0 <= k < remote_positions(entries).len(),
        entries[remote_positions(entries)[k]].config is Ssh,
    ensures
        probes[remote_positions(entries)[k]] matches Some(run) && {
            &&& r.sections@[k + 1].checks@.len() == run.outcomes@.len()
            &&& probe_succeeded(run.outcomes@[0]) ==> r.sections@[k + 1].checks@[0].detail@
                == "connected in "@ + decimal(run.elapsed_ms as nat) + "ms"@
        },
{
    assert(remote_section_is(
        r.sections@[k + 1],
        entries[remote_positions(entries)[k]],
        probes[remote_positions(entries)[k]],
    ));
}

/// Every section of the report is rendered, in order: the block of
/// section `i` follows the header and the blocks of the sections before
/// it.
pub proof fn law_every_section_is_rendered_in_order(r: DoctorReport, i: int)
    requires
        0 <= i < r.sections@.len(),
    ensures
        ({
            let blocks = r.sections@.map_values(|s: DoctorSection| section_block(s));
            let at: int = ("helmor doctor\n\n"@.len() + blocks.take(i).flatten().len()) as int;
            rendered(r).subrange(at, at + section_block(r.sections@[i]).len()) == section_block(
                r.sections@[i],
            )
        }),
{
    let blocks = r.sections@.map_values(|s: DoctorSection| section_block(s));
    crate::text::lemma_flatten_piece(blocks, i);
    let h = "helmor doctor\n\n"@;
    let at: int = (h.len() + blocks.take(i).flatten().len()) as int;
    let whole = rendered(r);
    assert(whole == h + blocks.flatten() + summary_line(r));
    assert(whole.subrange(at, at + blocks[i].len()) =~= blocks.flatten().subrange(
        blocks.take(i).flatten().len() as int,
        (blocks.take(i).flatten().len() + blocks[i].len()) as int,
    ));
}

/// Every check of a section is rendered in its block, in order: the rows
/// of check `j` follow the title line and the rows of the checks before it.
pub proof fn law_every_check_is_rendered_in_order(s: DoctorSection, j: int)
    requires
        0 <= j < s.checks@.len(),
    ensures
        ({
            let rows = s.checks@.map_values(|c: DoctorCheck| check_rows(c));
            let at: int = (s.title@.len() + 1 + rows.take(j).flatten().len()) as int;
            section_block(s).subrange(at, at + check_rows(s.checks@[j]).len()) == check_rows(
                s.checks@[j],
            )
        }),
{
    let rows = s.checks@.map_values(|c: DoctorCheck| check_rows(c));
    crate::text::lemma_flatten_piece(rows, j);
    let head = s.title@ + seq!['\n'];
    let at: int = (head.len() + rows.take(j).flatten().len()) as int;
    let whole = section_block(s);
    assert(whole == head + rows.flatten() + seq!['\n']);
    assert(whole.subrange(at, at + rows[j].len()) =~= rows.flatten().subrange(
        rows.take(j).flatten().len() as int,
        (rows.take(j).flatten().len() + rows[j].len()) as int,
    ));
}

/// The `Local` section reports a missing data directory as its only
/// check, an error; otherwise the data directory passes, and the desktop
/// check passes exactly when the socket is present (a warning otherwise).
pub proof fn law_local_section_grades_the_lookup(checks: Seq<DoctorCheck>, data_dir: Result<DataDirProbe, String>)
    requires
        local_checks_are(checks, data_dir),
    ensures
        data_dir is Err ==> checks.len() == 1 && checks[0].status == DoctorStatus::Error,
        data_dir matches Ok(p) ==> {
            &&& checks.len() == 2
            &&& checks[0].status == DoctorStatus::Pass
            &&& checks[1].status == (if p.socket_present {
                DoctorStatus::Pass
            } else {
                DoctorStatus::Warn
            })
            &&& checks[0].detail@.take(p.display@.len() as int) == p.display@
        },
{
    if let Ok(p) = data_dir {
        assert(checks[0].detail@.take(p.display@.len() as int) =~= p.display@);
    }
}

/// Different statuses are shown with different glyphs.
pub proof fn law_glyphs_tell_statuses_apart(a: DoctorStatus, b: DoctorStatus)
    requires
        status_symbol(a) == status_symbol(b),
    ensures
        a == b,
{
    reveal_strlit("✓");
    reveal_strlit("⚠");
    reveal_strlit("✗");
    assert("✓"@[0] == '✓');
    assert("⚠"@[0] == '⚠');
    assert("✗"@[0] == '✗');
    assert(status_symbol(a)[0] == status_symbol(b)[0]);
}

/// The section of an SSH remote is titled with the runtime's name and
/// host.
pub proof fn law_ssh_section_names_its_host(
    r: DoctorReport,
    data_dir: Result<DataDirProbe, String>,
    entries: Seq<RuntimeEntry>,
    probes: Seq<Option<SshProbeRun>>,
    k: int,
)
    requires
        report_built(r, data_dir, entries, probes),
        data_dir is Ok,
        0 <= k < remote_positions(entries).len(),
    ensures
        entries[remote_positions(entries)[k]].config matches RuntimeConnectionConfig::Ssh { host }
            ==> r.sections@[k + 1].title@ == "Remote: "@ + entries[remote_positions(
            entries,
        )[k]].name@ + " (ssh "@ + host@ + ")"@,
{
    assert(remote_section_is(
        r.sections@[k + 1],
        entries[remote_positions(entries)[k]],
        probes[remote_positions(entries)[k]],
    ));
}

} // verus!
