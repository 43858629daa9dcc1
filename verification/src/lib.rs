//! Verified core of the helmor command-line helpers: the `doctor`
//! diagnostic report, the CLI ⇄ desktop RPC wire types and their
//! routing decisions, the `github pr` command flow, forge command
//! output handling, and the latency percentiles of the soak harness.
pub mod text;
pub mod doctor;
pub mod cli_rpc;
pub mod github;
pub mod command;
pub mod percentiles;
