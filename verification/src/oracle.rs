//! The interestingness oracle.
//!
//! One oracle invocation spawns the configured command on a candidate
//! source buffer, captures its streams, and classifies the outcome.
//! Spawning and stream capture are the external reducer crate's work;
//! classification is this module's, and follows an explicit ordered
//! rule evaluation:
//!
//! 1. a timed-out run is never interesting;
//! 2. a match of an `uninteresting_*` pattern overrides everything
//!    else and makes the run not interesting;
//! 3. otherwise every configured `interesting` constraint must hold
//!    (exit-code set membership and required pattern matches);
//! 4. with no interesting constraint configured at all, exit code 0
//!    counts as interesting.

use vstd::prelude::*;

use crate::errors::IceError;
use crate::pattern::CompiledRegex;
use crate::pattern::compile_engine_regex;
use crate::pattern::re_compiles;
use crate::pattern::re_match;
use crate::pattern::re_text_compiles;
use treereduce::Check;

verus! {

#[verifier::external_type_specification]
#[verifier::external_body]
pub struct ExCmdCheck(treereduce::CmdCheck);

#[verifier::external_type_specification]
#[verifier::external_body]
pub struct ExCmdCheckState(treereduce::CmdCheckState);

#[verifier::external_type_specification]
#[verifier::external_body]
pub struct ExIoError(std::io::Error);

/// How one spawned check command came to an end.
#[derive(Clone, Copy, Debug, PartialEq, Eq, Structural)]
pub enum ProcStatus {
    /// The timeout elapsed first and the process was terminated.
    TimedOut,
    /// The process exited with the given code.
    Exited(i32),
    /// The process was terminated by a signal and has no exit code.
    Signaled,
}

/// The outcome of one oracle invocation: how the process ended and the
/// captured output streams.  A timed-out run has empty streams.
pub struct RunOutcome {
    pub status: ProcStatus,
    pub stdout: Vec<u8>,
    pub stderr: Vec<u8>,
}

/// Immutable configuration of one interestingness test.
pub struct OracleConfig {
    /// Exit codes accepted as interesting; empty means any.
    pub interesting_exit_codes: Vec<i32>,
    /// When present, a match on stdout is required for interestingness.
    pub interesting_stdout: Option<CompiledRegex>,
    /// When present, a match on stderr is required for interestingness.
    pub interesting_stderr: Option<CompiledRegex>,
    /// When present, a match on stdout vetoes interestingness.
    pub uninteresting_stdout: Option<CompiledRegex>,
    /// When present, a match on stderr vetoes interestingness.
    pub uninteresting_stderr: Option<CompiledRegex>,
    /// Echo the checked command's stdout (debugging only; no effect on
    /// classification).
    pub echo_stdout: bool,
    /// Echo the checked command's stderr (debugging only).
    pub echo_stderr: bool,
    /// Wall-clock budget of one invocation, in milliseconds.
    pub timeout_millis: u64,
}

impl OracleConfig {
    /// Is any `interesting` constraint configured at all?
    pub open spec fn has_interesting_constraints(&self) -> bool {
        ||| self.interesting_exit_codes@.len() > 0
        ||| self.interesting_stdout is Some
        ||| self.interesting_stderr is Some
    }
}

/// Does some configured `uninteresting_*` pattern match its stream?
pub open spec fn uninteresting_match(cfg: OracleConfig, run: RunOutcome) -> bool {
    ||| (cfg.uninteresting_stdout matches Some(re) && re_match(re.pattern_spec(), run.stdout@))
    ||| (cfg.uninteresting_stderr matches Some(re) && re_match(re.pattern_spec(), run.stderr@))
}

/// Do all configured `interesting` constraints hold of the run?
pub open spec fn interesting_constraints_hold(cfg: OracleConfig, run: RunOutcome) -> bool {
    &&& cfg.interesting_exit_codes@.len() > 0 ==> (run.status matches ProcStatus::Exited(c)
        && cfg.interesting_exit_codes@.contains(c))
    &&& (cfg.interesting_stdout matches Some(re) ==> re_match(re.pattern_spec(), run.stdout@))
    &&& (cfg.interesting_stderr matches Some(re) ==> re_match(re.pattern_spec(), run.stderr@))
}

/// The classification algorithm, as an ordered rule evaluation.
pub open spec fn classify_spec(cfg: OracleConfig, run: RunOutcome) -> bool {
    if run.status is TimedOut {
        false
    } else if uninteresting_match(cfg, run) {
        false
    } else if cfg.has_interesting_constraints() {
        interesting_constraints_hold(cfg, run)
    } else {
        run.status == ProcStatus::Exited(0i32)
    }
}

/// Law: an `uninteresting_*` match always overrides an `interesting_*`
/// match — whatever else holds of the run, it is not interesting.
pub proof fn lemma_uninteresting_overrides(cfg: OracleConfig, run: RunOutcome)
    requires
        uninteresting_match(cfg, run),
    ensures
        !classify_spec(cfg, run),
{
}

/// Law: a run that exceeded its timeout is classified not interesting,
/// never accepted and never left pending.
pub proof fn lemma_timeout_not_interesting(cfg: OracleConfig, run: RunOutcome)
    requires
        run.status is TimedOut,
    ensures
        !classify_spec(cfg, run),
{
}

/// Classify one collected outcome under `cfg`.
pub fn classify(cfg: &OracleConfig, run: &RunOutcome) -> (r: bool)
    ensures
        r == classify_spec(*cfg, *run),
{
    if matches!(run.status, ProcStatus::TimedOut) {
        return false;
    }
    if let Some(re) = &cfg.uninteresting_stdout {
        if re.is_match(run.stdout.as_slice()) {
            return false;
        }
    }
    if let Some(re) = &cfg.uninteresting_stderr {
        if re.is_match(run.stderr.as_slice()) {
            return false;
        }
    }
    let has_codes = cfg.interesting_exit_codes.len() > 0;
    let has_constraints = has_codes || cfg.interesting_stdout.is_some()
        || cfg.interesting_stderr.is_some();
    if !has_constraints {
        return matches!(run.status, ProcStatus::Exited(0i32));
    }
    if has_codes {
        let code_ok = match run.status {
            ProcStatus::Exited(c) => contains_code(&cfg.interesting_exit_codes, c),
            _ => false,
        };
        if !code_ok {
            return false;
        }
    }
    if let Some(re) = &cfg.interesting_stdout {
        if !re.is_match(run.stdout.as_slice()) {
            return false;
        }
    }
    if let Some(re) = &cfg.interesting_stderr {
        if !re.is_match(run.stderr.as_slice()) {
            return false;
        }
    }
    true
}

/// One configured interestingness test: the classification model above
/// plus an opaque command check handed to the external reduction
/// engine, built from the same command, patterns and timeout.  The
/// engine classifies internally with the same patterns; for the
/// configurations this library builds (a stderr pattern and no other
/// interesting constraint) its rule agrees with [`classify_spec`].
pub struct Oracle {
    /// The checked command (typically the compiler under test).
    pub cmd: String,
    /// Its arguments; the last one is the candidate-file placeholder.
    pub args: Vec<String>,
    /// The classification model of this test.
    pub config: OracleConfig,
    /// The opaque command check handed to the external reducer; built
    /// by [`check`] from the same command, patterns and timeout.
    pub chk: treereduce::CmdCheck,
}

/// Relies on `treereduce::CmdCheck::new`: it packages command,
/// arguments, exit codes, patterns, echo flags and timeout for the
/// external reduction engine, which classifies with them internally.
#[verifier::external_body]
fn new_cmd_check(
    cmd: String,
    args: Vec<String>,
    interesting_stderr: Option<regex::Regex>,
    uninteresting_stderr: Option<regex::Regex>,
    echo: bool,
    timeout_millis: u64,
) -> treereduce::CmdCheck {
    treereduce::CmdCheck::new(
        cmd,
        args,
        Vec::new(),
        None,
        None,
        interesting_stderr,
        None,
        uninteresting_stderr,
        echo,
        echo,
        Some(std::time::Duration::from_millis(timeout_millis)),
    )
}

/// Relies on the `Clone` derived for `treereduce::CmdCheck`.
#[verifier::external_body]
fn clone_cmd_check(chk: &treereduce::CmdCheck) -> treereduce::CmdCheck {
    chk.clone()
}

/// Relies on `treereduce::Check::start` for `CmdCheck`: it spawns the
/// command on the candidate bytes and returns a handle to the running
/// evaluation.
#[verifier::external_body]
fn cmd_start(
    chk: &treereduce::CmdCheck,
    candidate: &[u8],
) -> (r: Result<treereduce::CmdCheckState, std::io::Error>) {
    chk.start(candidate)
}

/// Relies on `treereduce::CmdCheck::wait_with_output`: it waits for
/// the spawned process, enforcing the configured timeout; a run that
/// timed out is terminated and reported with empty streams.
#[verifier::external_body]
fn cmd_wait(
    chk: &treereduce::CmdCheck,
    state: treereduce::CmdCheckState,
) -> (r: Result<RunOutcome, std::io::Error>)
    ensures
        r matches Ok(run) ==> (run.status is TimedOut ==> run.stdout@.len() == 0
            && run.stderr@.len() == 0),
{
    match chk.wait_with_output(state) {
        Ok((_, None, stdout, stderr)) => Ok(RunOutcome { status: ProcStatus::TimedOut, stdout, stderr }),
        Ok((_, Some(s), stdout, stderr)) => Ok(RunOutcome {
            status: match s.code() {
                Some(c) => ProcStatus::Exited(c),
                None => ProcStatus::Signaled,
            },
            stdout,
            stderr,
        }),
        Err(e) => Err(e),
    }
}

impl Oracle {
    /// Launch one evaluation without waiting for its result.  The
    /// external reducer dispatches many evaluations this way and
    /// abandons some once a smaller interesting candidate is known.
    pub fn start(&self, candidate: &[u8]) -> (r: Result<treereduce::CmdCheckState, IceError>)
        ensures
            r is Err ==> r == Err::<treereduce::CmdCheckState, IceError>(IceError::OracleIo),
    {
        match cmd_start(&self.chk, candidate) {
            Ok(state) => Ok(state),
            Err(_) => Err(IceError::OracleIo),
        }
    }

    /// Collect a launched evaluation and classify its outcome.
    pub fn wait(&self, state: treereduce::CmdCheckState) -> (r: Result<
        (bool, RunOutcome),
        IceError,
    >)
        ensures
            r matches Ok((interesting, run)) ==> interesting == classify_spec(
                self.config,
                run,
            ),
            r is Err ==> r == Err::<(bool, RunOutcome), IceError>(IceError::OracleIo),
    {
        match cmd_wait(&self.chk, state) {
            Ok(run) => {
                let interesting = classify(&self.config, &run);
                Ok((interesting, run))
            },
            Err(_) => Err(IceError::OracleIo),
        }
    }

    /// Run one full evaluation: spawn, await, classify.
    pub fn run(&self, candidate: &[u8]) -> (r: Result<(bool, RunOutcome), IceError>)
        ensures
            r matches Ok((interesting, run)) ==> interesting == classify_spec(
                self.config,
                run,
            ),
            r is Err ==> r == Err::<(bool, RunOutcome), IceError>(IceError::OracleIo),
    {
        let state = self.start(candidate)?;
        self.wait(state)
    }

    /// A duplicate of the opaque engine check, for handing to the
    /// external reducer.
    pub(crate) fn engine_check(&self) -> treereduce::CmdCheck {
        clone_cmd_check(&self.chk)
    }
}

/// Does the optional compiled pattern carry exactly the optional
/// pattern text?
pub open spec fn pattern_of(compiled: Option<CompiledRegex>, text: Option<String>) -> bool {
    match text {
        Some(p) => compiled matches Some(c) && c.pattern_spec() == p@,
        None => compiled is None,
    }
}

/// Is the optional pattern accepted by both regex compilers ([`check`]
/// compiles each pattern once for its own byte-level classification
/// and once for the external engine's text-level check)?
pub open spec fn pattern_accepted(p: Option<String>) -> bool {
    p matches Some(s) ==> re_compiles(s@) && re_text_compiles(s@)
}

/// Is `o` the oracle that [`check`] builds for this command line,
/// interesting pattern, echo flag and timeout?  (The uninteresting
/// pattern differs between pipeline stages and is stated separately.)
pub open spec fn is_configured_oracle(
    o: Oracle,
    debug: bool,
    timeout_millis: u64,
    check_cmd: Seq<String>,
    interesting_stderr: Option<String>,
) -> bool {
    &&& o.cmd@ == check_cmd[0]@
    &&& o.args@.len() == check_cmd.len()
    &&& forall|i: int| 1 <= i < check_cmd.len() ==> o.args@[i - 1]@ == check_cmd[i]@
    &&& o.args@[check_cmd.len() - 1]@ == "@@.rs"@
    &&& o.config.interesting_exit_codes@.len() == 0
    &&& o.config.interesting_stdout is None
    &&& o.config.uninteresting_stdout is None
    &&& pattern_of(o.config.interesting_stderr, interesting_stderr)
    &&& o.config.echo_stdout == debug
    &&& o.config.echo_stderr == debug
    &&& o.config.timeout_millis == timeout_millis
}

/// Build the interestingness test used by every pipeline stage.
///
/// The command line is the checked command followed by its arguments;
/// the candidate-file placeholder `@@.rs` is appended for the reducer.
/// An empty command is a setup error, as is a pattern that does not
/// compile; with a nonempty command and well-formed patterns an
/// oracle is owed.
pub fn check(
    debug: bool,
    timeout_millis: u64,
    check_cmd: Vec<String>,
    interesting_stderr: Option<String>,
    uninteresting_stderr: Option<String>,
) -> (r: Result<Oracle, IceError>)
    ensures
        check_cmd@.len() == 0 <==> r == Err::<Oracle, IceError>(IceError::EmptyCommand),
        r is Ok <==> check_cmd@.len() > 0 && pattern_accepted(interesting_stderr)
            && pattern_accepted(uninteresting_stderr),
        r is Err ==> (r == Err::<Oracle, IceError>(IceError::EmptyCommand) || r == Err::<
            Oracle,
            IceError,
        >(IceError::InvalidRegex)),
        r matches Ok(o) ==> is_configured_oracle(
            o,
            debug,
            timeout_millis,
            check_cmd@,
            interesting_stderr,
        ) && pattern_of(o.config.uninteresting_stderr, uninteresting_stderr),
{
    if check_cmd.len() == 0 {
        return Err(IceError::EmptyCommand);
    }
    let cmd: String = check_cmd[0].as_str().to_owned();
    let mut args: Vec<String> = Vec::new();
    let mut engine_args: Vec<String> = Vec::new();
    let mut i: usize = 1;
    while i < check_cmd.len()
        invariant
            1 <= i <= check_cmd@.len(),
            args@.len() == i - 1,
            engine_args@.len() == i - 1,
            forall|j: int| 1 <= j < i ==> args@[j - 1]@ == check_cmd@[j]@,
            forall|j: int| 1 <= j < i ==> engine_args@[j - 1]@ == check_cmd@[j]@,
        decreases check_cmd@.len() - i,
    {
        args.push(check_cmd[i].as_str().to_owned());
        engine_args.push(check_cmd[i].as_str().to_owned());
        i = i + 1;
    }
    args.push("@@.rs".to_owned());
    engine_args.push("@@.rs".to_owned());

    let (int_compiled, int_engine) = match &interesting_stderr {
        Some(p) => {
            let c = match CompiledRegex::compile(p.as_str()) {
                Ok(c) => c,
                Err(_) => {
                    return Err(IceError::InvalidRegex);
                },
            };
            let e = match compile_engine_regex(p.as_str()) {
                Ok(e) => e,
                Err(_) => {
                    return Err(IceError::InvalidRegex);
                },
            };
            (Some(c), Some(e))
        },
        None => (None, None),
    };
    let (un_compiled, un_engine) = match &uninteresting_stderr {
        Some(p) => {
            let c = match CompiledRegex::compile(p.as_str()) {
                Ok(c) => c,
                Err(_) => {
                    return Err(IceError::InvalidRegex);
                },
            };
            let e = match compile_engine_regex(p.as_str()) {
                Ok(e) => e,
                Err(_) => {
                    return Err(IceError::InvalidRegex);
                },
            };
            (Some(c), Some(e))
        },
        None => (None, None),
    };

    let chk = new_cmd_check(
        cmd.as_str().to_owned(),
        engine_args,
        int_engine,
        un_engine,
        debug,
        timeout_millis,
    );
    Ok(Oracle {
        cmd,
        args,
        config: OracleConfig {
            interesting_exit_codes: Vec::new(),
            interesting_stdout: None,
            interesting_stderr: int_compiled,
            uninteresting_stdout: None,
            uninteresting_stderr: un_compiled,
            echo_stdout: debug,
            echo_stderr: debug,
            timeout_millis,
        },
        chk,
    })
}

/// Linear membership test on the accepted exit codes.
fn contains_code(codes: &Vec<i32>, c: i32) -> (r: bool)
    ensures
        r == codes@.contains(c),
{
    let mut i: usize = 0;
    while i < codes.len()
        invariant
            0 <= i <= codes@.len(),
            forall|j: int| 0 <= j < i ==> codes@[j] != c,
        decreases codes@.len() - i,
    {
        if codes[i] == c {
            return true;
        }
        i = i + 1;
    }
    false
}

} // verus!
