//! Post-reduction revalidation.
//!
//! After reduction an external formatter may rewrite the reduced
//! bytes.  Formatting is strictly cosmetic and never allowed to
//! regress correctness: the oracle is re-run on the rewritten bytes,
//! and whenever formatting failed, changed nothing, or broke the
//! reproduction, the unformatted reduced bytes are kept.

use vstd::prelude::*;

use crate::errors::IceError;
use crate::oracle::Oracle;

verus! {

/// The four terminal outcomes of the revalidation stage.
#[derive(Debug)]
pub enum FormatResult {
    /// The formatter could not be run (or its output not read back).
    CouldntFormat,
    /// The formatter's output was byte-identical to its input.
    NoChange,
    /// Formatting changed the bytes but removed the failure.
    NoIce,
    /// Formatting changed the bytes and the failure persists.
    Changed(Vec<u8>),
}

/// The user-facing label of each revalidation outcome.
pub fn format_result(result: &FormatResult) -> (r: &'static str)
    ensures
        r@ == format_result_spec(*result),
{
    match result {
        FormatResult::CouldntFormat => "❌ Couldn't format",
        FormatResult::NoChange => "✅ No change, already formatted",
        FormatResult::NoIce => "❌ Formatting removed ICE",
        FormatResult::Changed(_) => "✅ Formatted!",
    }
}

/// The label each revalidation outcome carries.
pub open spec fn format_result_spec(result: FormatResult) -> Seq<char> {
    match result {
        FormatResult::CouldntFormat => "❌ Couldn't format"@,
        FormatResult::NoChange => "✅ No change, already formatted"@,
        FormatResult::NoIce => "❌ Formatting removed ICE"@,
        FormatResult::Changed(_) => "✅ Formatted!"@,
    }
}

/// Classify the formatter's rewrite of `reduced`.
///
/// `formatted` is the formatter's output, or `None` when the
/// formatter could not be run.  Running the revalidator on an
/// already-formatted candidate (output byte-identical to its input)
/// yields `NoChange` without consulting the oracle.  The oracle is
/// consulted only for genuinely changed bytes; an I/O failure while
/// doing so is reported as an error, which callers downgrade to
/// keeping the unformatted candidate.
pub fn fmt(oracle: &Oracle, reduced: &Vec<u8>, formatted: Option<Vec<u8>>) -> (r: Result<
    FormatResult,
    IceError,
>)
    ensures
        formatted is None <==> (r matches Ok(fr) && fr is CouldntFormat),
        (formatted matches Some(f) && f@ == reduced@) <==> (r matches Ok(fr) && fr is NoChange),
        r matches Ok(fr) ==> match fr {
            FormatResult::CouldntFormat => formatted is None,
            FormatResult::NoChange => formatted matches Some(f) && f@ == reduced@,
            FormatResult::NoIce => formatted matches Some(f) && f@ != reduced@,
            FormatResult::Changed(out) => formatted matches Some(f) && out == f && f@
                != reduced@,
        },
        r matches Err(e) ==> e == IceError::OracleIo && (formatted matches Some(f) && f@
            != reduced@),
{
    match formatted {
        None => Ok(FormatResult::CouldntFormat),
        Some(f) => {
            if bytes_equal(&f, reduced) {
                return Ok(FormatResult::NoChange);
            }
            let (interesting, _run) = oracle.run(f.as_slice())?;
            Ok(revalidation_outcome(interesting, f))
        },
    }
}

/// Decide the revalidation outcome for genuinely changed bytes from
/// the oracle's verdict on them: a rewrite that keeps the failure is
/// adopted, one that loses it is discarded.
pub fn revalidation_outcome(interesting: bool, formatted: Vec<u8>) -> (r: FormatResult)
    ensures
        interesting <==> r is Changed,
        r matches FormatResult::Changed(f) ==> f == formatted,
        !interesting ==> r is NoIce,
{
    if interesting {
        FormatResult::Changed(formatted)
    } else {
        FormatResult::NoIce
    }
}

/// The final candidate: the formatter's output only when it both
/// changed the bytes and kept the failure; otherwise the reduced
/// bytes, unchanged.
pub fn select_final(reduced: Vec<u8>, result: FormatResult) -> (r: Vec<u8>)
    ensures
        result matches FormatResult::Changed(f) ==> r@ == f@,
        !(result is Changed) ==> r@ == reduced@,
{
    match result {
        FormatResult::Changed(f) => f,
        _ => reduced,
    }
}

/// Byte-wise equality of two buffers.
fn bytes_equal(a: &Vec<u8>, b: &Vec<u8>) -> (r: bool)
    ensures
        r == (a@ == b@),
{
    if a.len() != b.len() {
        proof {
            assert(a@ != b@);
        }
        return false;
    }
    let mut i: usize = 0;
    while i < a.len()
        invariant
            0 <= i <= a@.len(),
            a@.len() == b@.len(),
            forall|j: int| 0 <= j < i ==> a@[j] == b@[j],
        decreases a@.len() - i,
    {
        if a[i] != b[i] {
            proof {
                assert(a@[i as int] != b@[i as int]);
            }
            return false;
        }
        i = i + 1;
    }
    proof {
        assert(a@ =~= b@);
    }
    true
}

} // verus!
