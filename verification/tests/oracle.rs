//! Classification scenarios for the interestingness oracle.

use icemelter::oracle::{classify, OracleConfig, ProcStatus, RunOutcome};
use icemelter::pattern::CompiledRegex;

fn config() -> OracleConfig {
    OracleConfig {
        interesting_exit_codes: Vec::new(),
        interesting_stdout: None,
        interesting_stderr: None,
        uninteresting_stdout: None,
        uninteresting_stderr: None,
        echo_stdout: false,
        echo_stderr: false,
        timeout_millis: 2000,
    }
}

fn outcome(status: ProcStatus, stderr: &str) -> RunOutcome {
    RunOutcome {
        status,
        stdout: Vec::new(),
        stderr: stderr.as_bytes().to_vec(),
    }
}

/// Scenario B: an interesting-stderr pattern alone decides, whatever
/// the exit code, when no exit codes are configured.
#[test]
fn ice_phrase_is_interesting_regardless_of_exit_code() {
    let mut cfg = config();
    cfg.interesting_stderr = Some(CompiledRegex::compile("internal compiler error:").unwrap());
    let run = outcome(
        ProcStatus::Exited(101),
        "error: internal compiler error: entered unreachable code\n",
    );
    assert!(classify(&cfg, &run));
    let run2 = outcome(ProcStatus::Exited(0), "internal compiler error: boom\n");
    assert!(classify(&cfg, &run2));
    let run3 = outcome(ProcStatus::Exited(101), "error: expected one of `,`\n");
    assert!(!classify(&cfg, &run3));
}

/// The precedence invariant: an uninteresting match overrides an
/// interesting match.
#[test]
fn uninteresting_overrides_interesting() {
    let mut cfg = config();
    cfg.interesting_stderr = Some(CompiledRegex::compile("internal compiler error:").unwrap());
    cfg.uninteresting_stderr = Some(CompiledRegex::compile("error\\[E0308\\]").unwrap());
    let run = outcome(
        ProcStatus::Exited(101),
        "error[E0308]: mismatched types\nerror: internal compiler error: boom\n",
    );
    assert!(!classify(&cfg, &run));
    let run2 = outcome(ProcStatus::Exited(101), "error: internal compiler error: boom\n");
    assert!(classify(&cfg, &run2));
}

/// Timeout monotonicity: a timed-out run is never interesting, even
/// under a configuration with no constraints at all.
#[test]
fn timeout_is_never_interesting() {
    let cfg = config();
    let run = outcome(ProcStatus::TimedOut, "");
    assert!(!classify(&cfg, &run));

    let mut cfg2 = config();
    cfg2.interesting_stderr = Some(CompiledRegex::compile(".*").unwrap());
    let run2 = outcome(ProcStatus::TimedOut, "");
    assert!(!classify(&cfg2, &run2));
}

/// With no interesting constraints configured, exit code 0 counts as
/// interesting (the debug-echo path).
#[test]
fn no_constraints_means_exit_zero() {
    let cfg = config();
    assert!(classify(&cfg, &outcome(ProcStatus::Exited(0), "")));
    assert!(!classify(&cfg, &outcome(ProcStatus::Exited(1), "")));
    assert!(!classify(&cfg, &outcome(ProcStatus::Signaled, "")));
}

/// A non-empty exit-code set must contain the observed code.
#[test]
fn exit_code_set_must_contain_code() {
    let mut cfg = config();
    cfg.interesting_exit_codes = vec![101, 134];
    assert!(classify(&cfg, &outcome(ProcStatus::Exited(101), "")));
    assert!(classify(&cfg, &outcome(ProcStatus::Exited(134), "")));
    assert!(!classify(&cfg, &outcome(ProcStatus::Exited(0), "")));
    assert!(!classify(&cfg, &outcome(ProcStatus::Signaled, "")));
}
