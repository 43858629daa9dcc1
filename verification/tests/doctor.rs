use helmor::doctor::{
    build_report, doctor_exit_code, indent, local_checks, next_ssh_probe, probe_hosts,
    remote_ssh_checks, render_human, ssh_probe_args, DataDirProbe, DoctorCheck, DoctorReport,
    DoctorSection, DoctorStatus, ProbeOutcome, RuntimeConnectionConfig, RuntimeEntry, SshProbe,
    SshProbeRun,
};

#[test]
fn report_has_errors_when_any_check_is_error() {
    let r = DoctorReport {
        sections: vec![DoctorSection {
            title: "t".into(),
            checks: vec![
                DoctorCheck::ok("a", "fine"),
                DoctorCheck::error("b", "boom"),
            ],
        }],
    };
    assert!(r.has_errors());
    assert!(!r.has_warns());
}

#[test]
fn report_has_warns_when_only_warns_present() {
    let r = DoctorReport {
        sections: vec![DoctorSection {
            title: "t".into(),
            checks: vec![DoctorCheck::warn("a", "soft"), DoctorCheck::ok("b", "fine")],
        }],
    };
    assert!(!r.has_errors());
    assert!(r.has_warns());
}

#[test]
fn report_is_clean_when_all_ok() {
    let r = DoctorReport {
        sections: vec![DoctorSection {
            title: "t".into(),
            checks: vec![DoctorCheck::ok("a", "fine"), DoctorCheck::ok("b", "fine")],
        }],
    };
    assert!(!r.has_errors());
    assert!(!r.has_warns());
}

#[test]
fn indent_prefixes_every_line() {
    assert_eq!(indent("a\nb\nc", "  "), "  a\n  b\n  c");
    assert_eq!(indent("", "  "), "");
    assert_eq!(indent("single", ">>"), ">>single");
}

#[test]
fn check_constructors_set_status() {
    assert_eq!(DoctorCheck::ok("n", "d").status, DoctorStatus::Pass);
    assert_eq!(DoctorCheck::warn("n", "d").status, DoctorStatus::Warn);
    assert_eq!(DoctorCheck::error("n", "d").status, DoctorStatus::Error);
}

// --- further cases -----------------------------------------------------

fn finished(success: bool, status: &str, stdout: &str, stderr: &str) -> ProbeOutcome {
    ProbeOutcome::Finished {
        success,
        status: status.to_string(),
        stdout: stdout.to_string(),
        stderr: stderr.to_string(),
    }
}

#[test]
fn constructors_keep_name_and_detail() {
    let c = DoctorCheck::warn("transport", "soft");
    assert_eq!(c.name, "transport");
    assert_eq!(c.detail, "soft");
}

#[test]
fn indent_follows_str_lines() {
    // A trailing newline ends the last line instead of starting a new one,
    // and "\r\n" counts as one line ending.
    assert_eq!(indent("a\n", "- "), "- a");
    assert_eq!(indent("a\r\nb", "- "), "- a\n- b");
    assert_eq!(indent("a\n\nb", "> "), "> a\n> \n> b");
    assert_eq!(indent("\n", "x"), "x");
}

#[test]
fn local_checks_with_socket_present() {
    let probe = DataDirProbe {
        display: "/home/u/helmor".to_string(),
        size_mb: "12.5".to_string(),
        socket_display: "/home/u/helmor/run/ui-sync.sock".to_string(),
        socket_present: true,
    };
    let checks = local_checks(&Ok(probe));
    assert_eq!(checks.len(), 2);
    assert_eq!(checks[0].name, "data directory");
    assert_eq!(checks[0].status, DoctorStatus::Pass);
    assert_eq!(checks[0].detail, "/home/u/helmor (12.5 MB)");
    assert_eq!(checks[1].name, "desktop running");
    assert_eq!(checks[1].status, DoctorStatus::Pass);
    assert_eq!(checks[1].detail, "ui-sync socket present at /home/u/helmor/run/ui-sync.sock");
}

#[test]
fn local_checks_warn_without_socket() {
    let probe = DataDirProbe {
        display: "/d".to_string(),
        size_mb: "0.0".to_string(),
        socket_display: "/d/run/ui-sync.sock".to_string(),
        socket_present: false,
    };
    let checks = local_checks(&Ok(probe));
    assert_eq!(checks[1].status, DoctorStatus::Warn);
    assert_eq!(
        checks[1].detail,
        "no ui-sync socket at /d/run/ui-sync.sock — desktop probably not running"
    );
}

#[test]
fn local_checks_error_without_data_dir() {
    let checks = local_checks(&Err("HOME is not set".to_string()));
    assert_eq!(checks.len(), 1);
    assert_eq!(checks[0].name, "data directory");
    assert_eq!(checks[0].status, DoctorStatus::Error);
    assert_eq!(checks[0].detail, "HOME is not set");
}

#[test]
fn ssh_probe_arguments() {
    let args = ssh_probe_args("box", SshProbe::DaemonLog);
    assert_eq!(
        args,
        vec![
            "-o",
            "BatchMode=yes",
            "-o",
            "ConnectTimeout=5",
            "-o",
            "ServerAliveInterval=10",
            "box",
            "tail",
            "-5",
            "$HOME/.helmor/server/daemon.log"
        ]
    );
    assert_eq!(ssh_probe_args("h", SshProbe::Reachable)[7..], ["echo", "ok"]);
}

#[test]
fn unreachable_host_stops_probing() {
    let mut done = vec![];
    assert_eq!(next_ssh_probe(&done), Some(SshProbe::Reachable));
    done.push(finished(false, "exit status: 255", "", "  Permission denied\nline two\nline three\n"));
    assert_eq!(next_ssh_probe(&done), None);
    let checks = remote_ssh_checks(7, &done);
    assert_eq!(checks.len(), 1);
    assert_eq!(checks[0].name, "ssh reachable");
    assert_eq!(checks[0].status, DoctorStatus::Error);
    assert_eq!(
        checks[0].detail,
        "ssh failed (exit exit status: 255): Permission denied / line two"
    );
}

#[test]
fn ssh_spawn_failure_is_an_error() {
    let done = vec![ProbeOutcome::SpawnFailed { message: "No such file".to_string() }];
    assert_eq!(next_ssh_probe(&done), None);
    let checks = remote_ssh_checks(0, &done);
    assert_eq!(checks[0].detail, "ssh spawn failed: No such file");
}

#[test]
fn reachable_host_gets_all_probes() {
    let mut done = vec![finished(true, "exit status: 0", "ok\n", "")];
    assert_eq!(next_ssh_probe(&done), Some(SshProbe::DaemonBinary));
    done.push(finished(true, "exit status: 0", " -rwx helmor-server \n", ""));
    assert_eq!(next_ssh_probe(&done), Some(SshProbe::DaemonLog));
    done.push(finished(true, "exit status: 0", "INFO start\nWARN slow\n", ""));
    assert_eq!(next_ssh_probe(&done), None);
    let checks = remote_ssh_checks(42, &done);
    assert_eq!(checks.len(), 3);
    assert_eq!(checks[0].status, DoctorStatus::Pass);
    assert_eq!(checks[0].detail, "connected in 42ms");
    assert_eq!(checks[1].detail, "-rwx helmor-server");
    assert_eq!(checks[2].status, DoctorStatus::Warn);
    assert_eq!(checks[2].detail, "last 5 lines:\n    INFO start\n    WARN slow");
}

#[test]
fn daemon_log_grading() {
    let run = |log: &str| {
        let done = vec![
            finished(true, "", "", ""),
            finished(true, "", "x", ""),
            finished(true, "", log, ""),
        ];
        remote_ssh_checks(1, &done).remove(2)
    };
    let c = run("WARN a\nERROR b");
    assert_eq!(c.status, DoctorStatus::Error);
    let c = run("all quiet");
    assert_eq!(c.status, DoctorStatus::Pass);
    let c = run("  \n ");
    assert_eq!(c.status, DoctorStatus::Pass);
    assert_eq!(c.detail, "log file empty");
}

#[test]
fn missing_binary_and_log() {
    let done = vec![
        finished(true, "", "", ""),
        finished(false, "exit status: 2", "", ""),
        finished(false, "exit status: 1", "", ""),
    ];
    let checks = remote_ssh_checks(3, &done);
    assert_eq!(checks[1].status, DoctorStatus::Error);
    assert_eq!(
        checks[1].detail,
        "$HOME/.helmor/server/helmor-server not found — the desktop's install gate should drop it there on first connect"
    );
    assert_eq!(checks[2].status, DoctorStatus::Warn);
    assert_eq!(checks[2].detail, "$HOME/.helmor/server/daemon.log not found or unreadable");
    let done = vec![
        finished(true, "", "", ""),
        ProbeOutcome::SpawnFailed { message: "e1".to_string() },
        ProbeOutcome::SpawnFailed { message: "e2".to_string() },
    ];
    let checks = remote_ssh_checks(3, &done);
    assert_eq!(checks[1].status, DoctorStatus::Error);
    assert_eq!(checks[1].detail, "probe failed: e1");
    assert_eq!(checks[2].status, DoctorStatus::Warn);
    assert_eq!(checks[2].detail, "probe failed: e2");
}

fn data_dir_ok() -> Result<DataDirProbe, String> {
    Ok(DataDirProbe {
        display: "/d".to_string(),
        size_mb: "1.0".to_string(),
        socket_display: "/d/run/ui-sync.sock".to_string(),
        socket_present: true,
    })
}

fn sample_entries() -> Vec<RuntimeEntry> {
    vec![
        RuntimeEntry { name: "here".to_string(), config: RuntimeConnectionConfig::Local },
        RuntimeEntry {
            name: "box".to_string(),
            config: RuntimeConnectionConfig::Ssh { host: "box.lan".to_string() },
        },
        RuntimeEntry {
            name: "k8s".to_string(),
            config: RuntimeConnectionConfig::Command {
                argv: vec!["kubectl".to_string(), "exec".to_string()],
            },
        },
        RuntimeEntry {
            name: "empty".to_string(),
            config: RuntimeConnectionConfig::Command { argv: vec![] },
        },
    ]
}

#[test]
fn only_ssh_runtimes_are_probed() {
    let entries = sample_entries();
    assert_eq!(
        probe_hosts(&data_dir_ok(), &entries),
        vec![None, Some("box.lan".to_string()), None, None]
    );
    assert_eq!(probe_hosts(&Err("no HOME".to_string()), &entries), vec![None, None, None, None]);
}

#[test]
fn report_sections_follow_entries() {
    let entries = sample_entries();
    let probes = vec![
        None,
        Some(SshProbeRun { elapsed_ms: 1, outcomes: vec![finished(false, "exit status: 255", "", "denied")] }),
        None,
        None,
    ];
    let report = build_report(&data_dir_ok(), &entries, probes);
    let titles: Vec<&str> = report.sections.iter().map(|s| s.title.as_str()).collect();
    assert_eq!(
        titles,
        vec!["Local", "Remote: box (ssh box.lan)", "Remote: k8s (command kubectl)", "Remote: empty (command )"]
    );
    assert_eq!(report.sections[0].checks.len(), 2);
    assert_eq!(report.sections[1].checks.len(), 1);
    assert_eq!(report.sections[1].checks[0].detail, "ssh failed (exit exit status: 255): denied");
    assert_eq!(report.sections[2].checks[0].name, "transport");
    assert_eq!(report.sections[2].checks[0].status, DoctorStatus::Warn);
    assert_eq!(
        report.sections[2].checks[0].detail,
        "non-SSH transport — doctor only probes SSH today; check the daemon manually on the remote"
    );
}

#[test]
fn failed_lookup_reports_only_local() {
    let report = build_report(&Err("no data dir".to_string()), &sample_entries(), vec![]);
    assert_eq!(report.sections.len(), 1);
    assert_eq!(report.sections[0].title, "Local");
    assert_eq!(report.sections[0].checks.len(), 1);
    assert_eq!(report.sections[0].checks[0].status, DoctorStatus::Error);
    assert!(report.has_errors());
    assert_eq!(doctor_exit_code(&report), 1);
}

#[test]
fn human_rendering() {
    let report = DoctorReport {
        sections: vec![DoctorSection {
            title: "Local".into(),
            checks: vec![
                DoctorCheck::ok("data directory", "/d (1.0 MB)"),
                DoctorCheck::warn("daemon log tail", "last 5 lines:\n    WARN x"),
            ],
        }],
    };
    assert_eq!(
        render_human(&report),
        "helmor doctor\n\nLocal\n  ✓ data directory: /d (1.0 MB)\n  ⚠ daemon log tail: last 5 lines:\n        WARN x\n\nSummary: warnings only — see ⚠ rows above.\n"
    );
    let bad = DoctorReport {
        sections: vec![DoctorSection {
            title: "t".into(),
            checks: vec![DoctorCheck::warn("w", ""), DoctorCheck::error("e", "x")],
        }],
    };
    assert!(render_human(&bad).ends_with("  ✗ e: x\n\nSummary: errors present — see ✗ rows above.\n"));
    let clean = DoctorReport { sections: vec![] };
    assert_eq!(render_human(&clean), "helmor doctor\n\nSummary: all checks green.\n");
}

#[test]
fn exit_code_follows_errors() {
    let warn_only = DoctorReport {
        sections: vec![DoctorSection { title: "t".into(), checks: vec![DoctorCheck::warn("a", "b")] }],
    };
    assert_eq!(doctor_exit_code(&warn_only), 0);
    let failing = DoctorReport {
        sections: vec![
            DoctorSection { title: "t".into(), checks: vec![] },
            DoctorSection { title: "u".into(), checks: vec![DoctorCheck::error("a", "b")] },
        ],
    };
    assert_eq!(doctor_exit_code(&failing), 1);
}
