//! Splitting byte buffers into lines, the way the snippet and report
//! extractors read them: lines end at a line feed, an immediately
//! preceding carriage return belongs to the terminator, and the final
//! line ending is optional.

use vstd::prelude::*;

use crate::ascii::CR;
use crate::ascii::LF;

verus! {

/// The distance to the first line feed of `s` (or `s.len()` if none).
pub open spec fn find_lf(s: Seq<u8>) -> nat
    decreases s.len(),
{
    if s.len() == 0 {
        0
    } else if s[0] == LF {
        0
    } else {
        1 + find_lf(s.drop_first())
    }
}

/// A line's content: the bytes before its terminator.
pub open spec fn strip_cr(line: Seq<u8>) -> Seq<u8> {
    if line.len() > 0 && line.last() == CR {
        line.drop_last()
    } else {
        line
    }
}

/// The lines of `s`.
pub open spec fn split_lines(s: Seq<u8>) -> Seq<Seq<u8>>
    decreases s.len(),
{
    if s.len() == 0 {
        Seq::empty()
    } else {
        let e = find_lf(s);
        if e >= s.len() {
            seq![s]
        } else {
            seq![strip_cr(s.subrange(0, e as int))] + split_lines(s.skip(e + 1int))
        }
    }
}

/// `find_lf` names the least line-feed position.
pub proof fn lemma_find_lf_is(s: Seq<u8>, k: int)
    requires
        0 <= k <= s.len(),
        forall|j: int| 0 <= j < k ==> s[j] != LF,
        k < s.len() ==> s[k] == LF,
    ensures
        find_lf(s) == k,
    decreases s.len(),
{
    if s.len() == 0 {
    } else if s[0] == LF {
        assert(k == 0);
    } else {
        assert(k >= 1);
        lemma_find_lf_is(s.drop_first(), k - 1);
    }
}

/// Scan for the end of the line starting at `i`.
pub(crate) fn line_end(s: &[u8], i: usize) -> (e: usize)
    requires
        i <= s@.len(),
    ensures
        i <= e <= s@.len(),
        e - i == find_lf(s@.skip(i as int)),
        forall|j: int| i <= j < e ==> s@[j] != LF,
        e < s@.len() ==> s@[e as int] == LF,
{
    let n = s.len();
    let mut e = i;
    while e < n
        invariant
            i <= e <= n,
            n == s@.len(),
            forall|j: int| i <= j < e ==> s@[j] != LF,
        decreases n - e,
    {
        if s[e] == LF {
            proof {
                lemma_find_lf_is(s@.skip(i as int), e - i);
            }
            return e;
        }
        e = e + 1;
    }
    proof {
        lemma_find_lf_is(s@.skip(i as int), e - i);
    }
    e
}

/// Unfolding of [`split_lines`] at a suffix: the first line, then the
/// lines of the rest.
pub proof fn lemma_split_lines_step(s: Seq<u8>, i: int, e: int)
    requires
        0 <= i <= s.len(),
        i <= e <= s.len(),
        e - i == find_lf(s.skip(i)),
    ensures
        i < s.len() && e == s.len() ==> split_lines(s.skip(i)) =~= seq![s.skip(i)],
        i < s.len() && e < s.len() ==> split_lines(s.skip(i)) =~= seq![
            strip_cr(s.subrange(i, e)),
        ] + split_lines(s.skip(e + 1)),
        i == s.len() ==> split_lines(s.skip(i)) =~= Seq::<Seq<u8>>::empty(),
{
    let suf = s.skip(i);
    if i == s.len() {
        assert(suf.len() == 0);
    } else if e == s.len() {
        assert(find_lf(suf) >= suf.len());
    } else {
        assert(suf.subrange(0, e - i) =~= s.subrange(i, e));
        assert(suf.skip(e - i + 1) =~= s.skip(e + 1));
        assert(split_lines(suf) =~= seq![strip_cr(suf.subrange(0, e - i))] + split_lines(
            suf.skip(e - i + 1),
        ));
    }
}

} // verus!
