//! Initial validation: confirm the unmodified source reproduces the
//! failure at all, and harvest the diagnostic codes of that run.

use vstd::prelude::*;

use crate::codes::ErrorCodeSet;
use crate::codes::error_codes_in;
use crate::codes::extract_error_codes;
use crate::errors::IceError;
use crate::filter::opt_pattern;
use crate::filter::reduction_filter;
use crate::filter::synthesized_filter;
use crate::oracle::Oracle;
use crate::oracle::RunOutcome;
use crate::oracle::check;
use crate::oracle::is_configured_oracle;
use crate::oracle::pattern_accepted;
use crate::oracle::pattern_of;

verus! {

/// Run the oracle once against the unmodified source.  A source that
/// does not reproduce the failure is a fatal condition — the pipeline
/// refuses to "reduce" a case that was never shown to fail.  On
/// success, the distinct diagnostic codes of the run's stderr are
/// returned together with that stderr; absence of any code is valid
/// (crash modes need not come with numbered diagnostics).
pub fn check_initial_ice(oracle: &Oracle, src: &[u8]) -> (r: Result<
    (ErrorCodeSet, Vec<u8>),
    IceError,
>)
    ensures
        r matches Ok((codes, stderr)) ==> codes@ == error_codes_in(stderr@) && codes.wf(),
        r matches Err(e) ==> (e == IceError::NotReproducing || e == IceError::OracleIo),
{
    let (interesting, run) = oracle.run(src)?;
    harvest_initial_run(interesting, run)
}

/// Decide the initial run's outcome: a run that was not interesting
/// refuses the whole pipeline; an interesting one hands back its
/// stderr and exactly the distinct diagnostic codes found in it.
pub fn harvest_initial_run(interesting: bool, run: RunOutcome) -> (r: Result<
    (ErrorCodeSet, Vec<u8>),
    IceError,
>)
    ensures
        !interesting <==> r == Err::<(ErrorCodeSet, Vec<u8>), IceError>(
            IceError::NotReproducing,
        ),
        interesting ==> (r matches Ok((codes, stderr)) && stderr@ == run.stderr@ && codes@
            == error_codes_in(run.stderr@) && codes.wf()),
{
    if !interesting {
        return Err(IceError::NotReproducing);
    }
    let codes = extract_error_codes(run.stderr.as_slice());
    Ok((codes, run.stderr))
}

/// The reduction stage's oracle, together with what the initial run
/// taught us.
pub struct ReductionPlan {
    /// The oracle every reduction-phase evaluation goes through.
    pub oracle: Oracle,
    /// The codes harvested from the initial run and that run's
    /// stderr; absent when differential filtering was opted out of.
    pub harvested: Option<(ErrorCodeSet, Vec<u8>)>,
}

/// Validate the unmodified source and build the reduction oracle.
///
/// Unless `allow_errors` explicitly trades the guarantee away, the
/// oracle's uninteresting-stderr pattern is the differential filter
/// synthesized from exactly the diagnostic codes of the initial run —
/// the invariant that keeps reduction from drifting to an unrelated
/// failure.  The filter is fully constructed here, before any
/// reduction-phase evaluation, and never recomputed.
pub fn configure_reduction(
    debug: bool,
    timeout_millis: u64,
    check_cmd: Vec<String>,
    interesting_stderr: Option<String>,
    uninteresting_stderr: Option<String>,
    allow_errors: bool,
    source: &[u8],
) -> (r: Result<ReductionPlan, IceError>)
    ensures
        r == Err::<ReductionPlan, IceError>(IceError::EmptyCommand) <==> check_cmd@.len()
            == 0,
        r matches Err(e) ==> (e == IceError::EmptyCommand || e == IceError::InvalidRegex
            || e == IceError::NotReproducing || e == IceError::OracleIo),
        allow_errors ==> (r is Ok <==> check_cmd@.len() > 0 && pattern_accepted(
            interesting_stderr,
        ) && pattern_accepted(uninteresting_stderr)),
        r matches Ok(plan) ==> {
            &&& is_configured_oracle(
                plan.oracle,
                debug,
                timeout_millis,
                check_cmd@,
                interesting_stderr,
            )
            &&& allow_errors ==> plan.harvested is None && pattern_of(
                plan.oracle.config.uninteresting_stderr,
                uninteresting_stderr,
            )
            &&& !allow_errors ==> (plan.harvested matches Some((codes, stderr))
                && codes@ == error_codes_in(stderr@)
                && (plan.oracle.config.uninteresting_stderr matches Some(c)
                && c.pattern_spec() == synthesized_filter(
                codes@,
                opt_pattern(uninteresting_stderr),
            )))
        },
        check_cmd@.len() == 0 ==> r == Err::<ReductionPlan, IceError>(IceError::EmptyCommand),
{
    let initial = check(
        debug,
        timeout_millis,
        clone_strings(&check_cmd),
        clone_opt_string(&interesting_stderr),
        clone_opt_string(&uninteresting_stderr),
    )?;
    if allow_errors {
        return Ok(ReductionPlan { oracle: initial, harvested: None });
    }
    let (codes, initial_stderr) = check_initial_ice(&initial, source)?;
    let filter = reduction_filter(false, &codes, &uninteresting_stderr);
    let oracle = check(
        debug,
        timeout_millis,
        check_cmd,
        interesting_stderr,
        filter,
    )?;
    Ok(ReductionPlan { oracle, harvested: Some((codes, initial_stderr)) })
}

/// An element-wise copy of the command line.
fn clone_strings(v: &Vec<String>) -> (r: Vec<String>)
    ensures
        r@.len() == v@.len(),
        forall|i: int| 0 <= i < v@.len() ==> r@[i]@ == v@[i]@,
{
    let mut r: Vec<String> = Vec::new();
    let mut i: usize = 0;
    while i < v.len()
        invariant
            0 <= i <= v@.len(),
            r@.len() == i,
            forall|j: int| 0 <= j < i ==> r@[j]@ == v@[j]@,
        decreases v@.len() - i,
    {
        r.push(v[i].as_str().to_owned());
        i = i + 1;
    }
    r
}

/// A copy of the optional pattern.
fn clone_opt_string(v: &Option<String>) -> (r: Option<String>)
    ensures
        crate::filter::opt_pattern(r) == crate::filter::opt_pattern(*v),
{
    match v {
        Some(s) => Some(s.as_str().to_owned()),
        None => None,
    }
}

} // verus!
