# helmor

Verified core of the `helmor` command-line helpers, written in Verus.

- `src/` — the library, every function proved against its contract:
  - `text`: the character-level operations the rest is built from
    (`trim`, `lines`, `split('\n')`, substring search, joining, decimal
    rendering), each specified as a function on character sequences;
  - `doctor`: the `helmor doctor` report — local and SSH checks, the
    order of the SSH probes, report assembly, the human-readable
    rendering and the exit code;
  - `cli_rpc`: the CLI ⇄ desktop RPC messages, line framing, decoding of
    replies, and how failures and panics become error replies;
  - `github`: the `github pr` command as a state machine (resolve, ask
    the desktop, fall back to the local `gh`, notify, print) and its
    output texts;
  - `command`: forge command output, failure descriptions and routing;
  - `percentiles`: nearest-rank latency percentiles.
- `tests/` — scenario tests run against the compiled library.
- `app/` — the process-level plumbing the library hands its decisions
  to: probes, sockets, subprocesses, printing and the serde forms of the
  wire types.
