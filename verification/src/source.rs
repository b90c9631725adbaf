//! Deciding what the user handed the pipeline: a path to a failing
//! source file, or a reference to an issue of the compiler's tracker
//! (`#` followed by digits).

use vstd::prelude::*;

use crate::ascii::HASH;
use crate::ascii::digit_value;
use crate::ascii::is_digit;
use crate::errors::IceError;

verus! {

/// What the source argument names.
#[derive(Clone, Copy, Debug, PartialEq, Eq, Structural)]
pub enum SourceKind {
    /// A path of a local file holding the failing source.
    FilePath,
    /// The number of a tracker issue to fetch the source from.
    IssueNumber(usize),
}

/// Does the argument look like an issue reference: `#` and at least
/// one digit at the very start?
pub open spec fn is_issue_ref(s: Seq<u8>) -> bool {
    s.len() >= 2 && s[0] == HASH && is_digit(s[1])
}

/// The end of the digit run starting at `i`.
pub open spec fn digits_end(s: Seq<u8>, i: int) -> int
    decreases s.len() - i when 0 <= i <= s.len()
{
    if i >= s.len() {
        i
    } else if is_digit(s[i]) {
        digits_end(s, i + 1)
    } else {
        i
    }
}

/// The decimal value of the digits `s[i..j)`.
pub open spec fn digits_value(s: Seq<u8>, i: int, j: int) -> int
    decreases j - i,
{
    if j <= i {
        0
    } else {
        digits_value(s, i, j - 1) * 10 + digit_value(s[j - 1])
    }
}

/// The number an issue reference names: the value of its leading
/// digit run.
pub open spec fn issue_ref_value(s: Seq<u8>) -> int {
    digits_value(s, 1, digits_end(s, 1))
}

/// A digit run's value is nonnegative and grows with its length.
proof fn lemma_digits_value_monotone(s: Seq<u8>, i: int, j: int, k: int)
    requires
        i <= j <= k,
        forall|m: int| i <= m < k ==> is_digit(s[m]),
    ensures
        0 <= digits_value(s, i, j) <= digits_value(s, i, k),
    decreases k - j,
{
    if j == k {
        lemma_digits_value_nonneg(s, i, j);
    } else {
        lemma_digits_value_monotone(s, i, j, k - 1);
        lemma_digits_value_nonneg(s, i, k - 1);
    }
}

/// A digit run's value is nonnegative.
proof fn lemma_digits_value_nonneg(s: Seq<u8>, i: int, j: int)
    requires
        forall|m: int| i <= m < j ==> is_digit(s[m]),
    ensures
        digits_value(s, i, j) >= 0,
    decreases j - i,
{
    if j > i {
        lemma_digits_value_nonneg(s, i, j - 1);
    }
}

/// The bounds of a digit run.
proof fn lemma_digits_end_bounds(s: Seq<u8>, i: int)
    requires
        0 <= i <= s.len(),
    ensures
        i <= digits_end(s, i) <= s.len(),
        forall|j: int| i <= j < digits_end(s, i) ==> is_digit(s[j]),
        digits_end(s, i) < s.len() ==> !is_digit(s[digits_end(s, i)]),
    decreases s.len() - i,
{
    if i < s.len() && is_digit(s[i]) {
        lemma_digits_end_bounds(s, i + 1);
        assert(digits_end(s, i) == digits_end(s, i + 1));
    }
}

/// Classify the source argument.  Anything that is not an issue
/// reference is taken as a file path; an issue reference whose number
/// does not fit the machine is rejected.
pub fn parse_source(source: &[u8]) -> (r: Result<SourceKind, IceError>)
    ensures
        !is_issue_ref(source@) ==> r == Ok::<SourceKind, IceError>(SourceKind::FilePath),
        is_issue_ref(source@) && issue_ref_value(source@) <= usize::MAX ==> r == Ok::<
            SourceKind,
            IceError,
        >(SourceKind::IssueNumber(issue_ref_value(source@) as usize)),
        is_issue_ref(source@) && issue_ref_value(source@) > usize::MAX ==> r == Err::<
            SourceKind,
            IceError,
        >(IceError::IssueNumberTooLarge),
{
    let n = source.len();
    if n < 2 || source[0] != HASH || source[1] < crate::ascii::DIGIT_ZERO || source[1]
        > crate::ascii::DIGIT_NINE {
        return Ok(SourceKind::FilePath);
    }
    proof {
        lemma_digits_end_bounds(source@, 1);
    }
    let ghost end = digits_end(source@, 1);
    let mut acc: usize = 0;
    let mut k: usize = 1;
    while k < n && source[k] >= crate::ascii::DIGIT_ZERO && source[k] <= crate::ascii::DIGIT_NINE
        invariant
            1 <= k <= n,
            n == source@.len(),
            is_issue_ref(source@),
            end == digits_end(source@, 1),
            1 <= end <= n,
            k <= end,
            forall|j: int| 1 <= j < end ==> is_digit(source@[j]),
            end < n ==> !is_digit(source@[end]),
            acc == digits_value(source@, 1, k as int),
        decreases n - k,
    {
        let d = (source[k] - crate::ascii::DIGIT_ZERO) as usize;
        if acc > (usize::MAX - d) / 10 {
            proof {
                assert(is_issue_ref(source@));
                assert(k < end);
                assert(digits_value(source@, 1, k + 1) == acc * 10 + d);
                assert(acc * 10 + d > usize::MAX) by {
                    vstd::arithmetic::div_mod::lemma_fundamental_div_mod(
                        (usize::MAX - d) as int,
                        10,
                    );
                };
                lemma_digits_value_monotone(source@, 1, k + 1, end);
            }
            return Err(IceError::IssueNumberTooLarge);
        }
        proof {
            assert(acc * 10 + d <= usize::MAX) by {
                vstd::arithmetic::div_mod::lemma_fundamental_div_mod((usize::MAX - d) as int, 10);
            };
        }
        acc = acc * 10 + d;
        k = k + 1;
    }
    proof {
        if k < n {
            assert(!is_digit(source@[k as int]));
        }
        assert(k == end);
    }
    Ok(SourceKind::IssueNumber(acc))
}

} // verus!
