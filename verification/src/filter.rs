//! The differential filter synthesizer.
//!
//! Naive tree reduction happily "succeeds" by deleting code until any
//! crash reproduces — including crashes caused by freshly introduced
//! syntax or type errors.  The synthesized filter makes such
//! candidates not interesting: it matches (a) any bare `error:` line
//! that is not one of the two canonical ICE/panic phrasings, and
//! (b) any fixed-width diagnostic code in the known code space that
//! was *not* present in the initial failing run.  The filter string is
//! built once, between initial validation and reduction, and attached
//! as the oracle's uninteresting-stderr pattern.
//!
//! [`differential_matches`] states, at the byte level, what the
//! synthesized pattern means; [`matches_differential`] computes it.
//! The pattern string itself is consumed by the regex crate, whose
//! matching this library does not re-verify.

use vstd::prelude::*;

use crate::ascii::LF;
use crate::ascii::ascii_chars;
use crate::ascii::ascii_to_string;
use crate::ascii::four_digits;
use crate::ascii::push_four_digits;
use crate::ascii::push_str;
use crate::codes::ErrorCodeSet;
use crate::codes::code_marker_at;
use crate::codes::error_codes_in;
use crate::codes::code_value_at;

verus! {

/// One more than the largest diagnostic code the filter enumerates.
/// The compiler under test gains codes over time; when its error index
/// outgrows this bound, raise the bound — a code at or above it would
/// otherwise escape the differential filter.
pub const DIAGNOSTIC_CODE_SPACE: u16 = 1000;

pub const BAR: u8 = 124;

/// The bytes of `internal compiler error:`.
pub open spec fn ice_phrase() -> Seq<u8> {
    seq![
        105u8, 110, 116, 101, 114, 110, 97, 108, 32, 99, 111, 109, 112, 105, 108, 101, 114, 32,
        101, 114, 114, 111, 114, 58,
    ]
}

/// The bytes of `the compiler unexpectedly panicked. this is a bug.`.
pub open spec fn panic_phrase() -> Seq<u8> {
    seq![
        116u8, 104, 101, 32, 99, 111, 109, 112, 105, 108, 101, 114, 32, 117, 110, 101, 120, 112,
        101, 99, 116, 101, 100, 108, 121, 32, 112, 97, 110, 105, 99, 107, 101, 100, 46, 32,
        116, 104, 105, 115, 32, 105, 115, 32, 97, 32, 98, 117, 103, 46,
    ]
}

/// The bytes of `error: `.
pub open spec fn error_head() -> Seq<u8> {
    seq![101u8, 114, 114, 111, 114, 58, 32]
}

/// Does `w` stand at position `i` of `s`?
pub open spec fn prefix_at(s: Seq<u8>, i: int, w: Seq<u8>) -> bool {
    &&& 0 <= i
    &&& i + w.len() <= s.len()
    &&& forall|j: int| 0 <= j < w.len() ==> s[i + j] == w[j]
}

/// A phrase byte as a regex literal (`.` needs an escape).
pub open spec fn esc_byte(b: u8) -> Seq<u8> {
    if b == 46 {
        seq![92u8, 46]
    } else {
        seq![b]
    }
}

/// A phrase prefix as a regex literal.
pub open spec fn esc_lit(w: Seq<u8>) -> Seq<u8>
    decreases w.len(),
{
    if w.len() == 0 {
        Seq::empty()
    } else {
        esc_lit(w.drop_last()) + esc_byte(w.last())
    }
}

/// One rung of a phrase's deviation ladder: the line continues like
/// the phrase for `k` bytes and then shows a different byte, or ends.
pub open spec fn deviation_rung(w: Seq<u8>, k: int) -> Seq<u8> {
    seq![124u8] + esc_lit(w.take(k)) + seq![91u8, 94] + seq![w[k]] + seq![93u8] + seq![124u8]
        + esc_lit(w.take(k)) + seq![36u8]
}

/// The rungs for deviation positions `1..k`.
pub open spec fn deviation_ladder_upto(w: Seq<u8>, k: int) -> Seq<u8>
    decreases k,
{
    if k <= 1 {
        Seq::empty()
    } else {
        deviation_ladder_upto(w, k - 1) + deviation_rung(w, k - 1)
    }
}

/// Every way a line can continue like the phrase and then stop being
/// it (a deviation at the very first byte stands separately in the
/// clause, where the two phrasings part ways).
pub open spec fn deviation_ladder(w: Seq<u8>) -> Seq<u8> {
    deviation_ladder_upto(w, w.len() as int)
}

/// The bytes of the bare-error clause: a line-start `error: ` whose
/// continuation is neither of the two canonical ICE/panic phrasings.
/// The regex grammar has no look-around, so the complement is spelled
/// out: the first byte differs from both phrasings (`[^it]`), or the
/// line ends at once (`$`), or the line follows one phrasing for a
/// while and then deviates or ends.
pub open spec fn bare_clause_bytes() -> Seq<u8> {
    seq![
        94u8, 101, 114, 114, 111, 114, 58, 32, 40, 63, 58, 91, 94, 105, 116, 93, 124, 36,
    ] + deviation_ladder(ice_phrase()) + deviation_ladder(panic_phrase()) + seq![41u8]
}

/// The opening of the filter: the bare-error clause, then the head
/// of the code clause, `|^error\[E(`.
pub open spec fn filter_prefix() -> Seq<u8> {
    seq![40u8] + bare_clause_bytes() + seq![
        124u8, 94, 101, 114, 114, 111, 114, 92, 91, 69, 40,
    ]
}

/// The bytes of `)\]: )`.
pub open spec fn filter_suffix() -> Seq<u8> {
    seq![41u8, 92, 93, 58, 32, 41]
}

/// The codes below `n` that are absent from `codes`, ascending.
pub open spec fn absent_codes_upto(codes: Set<u16>, n: int) -> Seq<u16>
    decreases n,
{
    if n <= 0 {
        Seq::empty()
    } else if codes.contains((n - 1) as u16) {
        absent_codes_upto(codes, n - 1)
    } else {
        absent_codes_upto(codes, n - 1) + seq![(n - 1) as u16]
    }
}

/// The four-digit renderings of `items`, separated by `|`.
pub open spec fn alternation_bytes(items: Seq<u16>) -> Seq<u8>
    decreases items.len(),
{
    if items.len() == 0 {
        Seq::empty()
    } else if items.len() == 1 {
        four_digits(items[0] as int)
    } else {
        alternation_bytes(items.drop_last()) + seq![BAR] + four_digits(items.last() as int)
    }
}

/// The bytes of the synthesized error-code clause: an alternation of
/// every code in the known space that is absent from `codes`, framed
/// by the bare-`error:` clause.
pub open spec fn error_regex_bytes(codes: Set<u16>) -> Seq<u8> {
    filter_prefix() + alternation_bytes(
        absent_codes_upto(codes, DIAGNOSTIC_CODE_SPACE as int),
    ) + filter_suffix()
}


/// The `internal compiler error:` phrase, as runtime bytes.
fn ice_phrase_vec() -> (r: Vec<u8>)
    ensures
        r@ == ice_phrase(),
        forall|j: int| 0 <= j < r@.len() ==> r@[j] < 128,
{
    let mut r: Vec<u8> = Vec::new();
    r.push(105);
    r.push(110);
    r.push(116);
    r.push(101);
    r.push(114);
    r.push(110);
    assert(forall|j: int| 0 <= j < r@.len() ==> r@[j] < 128);
    r.push(97);
    r.push(108);
    r.push(32);
    r.push(99);
    r.push(111);
    r.push(109);
    assert(forall|j: int| 0 <= j < r@.len() ==> r@[j] < 128);
    r.push(112);
    r.push(105);
    r.push(108);
    r.push(101);
    r.push(114);
    r.push(32);
    assert(forall|j: int| 0 <= j < r@.len() ==> r@[j] < 128);
    r.push(101);
    r.push(114);
    r.push(114);
    r.push(111);
    r.push(114);
    r.push(58);
    assert(forall|j: int| 0 <= j < r@.len() ==> r@[j] < 128);
    proof {
        assert(r@ =~= ice_phrase());
    }
    r
}

/// The `the compiler unexpectedly panicked. this is a bug.` phrase,
/// as runtime bytes.
fn panic_phrase_vec() -> (r: Vec<u8>)
    ensures
        r@ == panic_phrase(),
        forall|j: int| 0 <= j < r@.len() ==> r@[j] < 128,
{
    let mut r: Vec<u8> = Vec::new();
    r.push(116);
    r.push(104);
    r.push(101);
    r.push(32);
    r.push(99);
    r.push(111);
    assert(forall|j: int| 0 <= j < r@.len() ==> r@[j] < 128);
    r.push(109);
    r.push(112);
    r.push(105);
    r.push(108);
    r.push(101);
    r.push(114);
    assert(forall|j: int| 0 <= j < r@.len() ==> r@[j] < 128);
    r.push(32);
    r.push(117);
    r.push(110);
    r.push(101);
    r.push(120);
    r.push(112);
    assert(forall|j: int| 0 <= j < r@.len() ==> r@[j] < 128);
    r.push(101);
    r.push(99);
    r.push(116);
    r.push(101);
    r.push(100);
    r.push(108);
    assert(forall|j: int| 0 <= j < r@.len() ==> r@[j] < 128);
    r.push(121);
    r.push(32);
    r.push(112);
    r.push(97);
    r.push(110);
    r.push(105);
    assert(forall|j: int| 0 <= j < r@.len() ==> r@[j] < 128);
    r.push(99);
    r.push(107);
    r.push(101);
    r.push(100);
    r.push(46);
    r.push(32);
    assert(forall|j: int| 0 <= j < r@.len() ==> r@[j] < 128);
    r.push(116);
    r.push(104);
    r.push(105);
    r.push(115);
    r.push(32);
    r.push(105);
    assert(forall|j: int| 0 <= j < r@.len() ==> r@[j] < 128);
    r.push(115);
    r.push(32);
    r.push(97);
    r.push(32);
    r.push(98);
    r.push(117);
    assert(forall|j: int| 0 <= j < r@.len() ==> r@[j] < 128);
    r.push(103);
    r.push(46);
    assert(forall|j: int| 0 <= j < r@.len() ==> r@[j] < 128);
    proof {
        assert(r@ =~= panic_phrase());
    }
    r
}

/// Append the regex-literal form of `w`'s first `k` bytes.
fn push_escaped(buf: &mut Vec<u8>, w: &Vec<u8>, k: usize)
    requires
        k <= w@.len(),
        forall|j: int| 0 <= j < w@.len() ==> w@[j] < 128,
        forall|j: int| 0 <= j < old(buf)@.len() ==> old(buf)@[j] < 128,
    ensures
        final(buf)@ == old(buf)@ + esc_lit(w@.take(k as int)),
        forall|j: int| 0 <= j < final(buf)@.len() ==> final(buf)@[j] < 128,
{
    let ghost base = buf@;
    proof {
        assert(esc_lit(w@.take(0)) =~= Seq::<u8>::empty());
        assert(buf@ =~= base + esc_lit(w@.take(0)));
    }
    let mut j: usize = 0;
    while j < k
        invariant
            0 <= j <= k <= w@.len(),
            forall|m: int| 0 <= m < w@.len() ==> w@[m] < 128,
            buf@ == base + esc_lit(w@.take(j as int)),
            forall|m: int| 0 <= m < buf@.len() ==> buf@[m] < 128,
        decreases k - j,
    {
        if w[j] == 46 {
            buf.push(92);
            buf.push(46);
        } else {
            buf.push(w[j]);
        }
        j = j + 1;
        proof {
            assert(w@.take(j as int).drop_last() =~= w@.take(j - 1));
            assert(w@.take(j as int).last() == w@[j - 1]);
            assert(esc_lit(w@.take(j as int)) =~= esc_lit(w@.take(j - 1)) + esc_byte(
                w@[j - 1],
            ));
            assert(buf@ =~= base + esc_lit(w@.take(j as int)));
        }
    }
}

/// Append the deviation ladder of phrase `w`.
fn push_ladder(buf: &mut Vec<u8>, w: &Vec<u8>)
    requires
        forall|j: int| 0 <= j < w@.len() ==> w@[j] < 128,
        forall|j: int| 0 <= j < old(buf)@.len() ==> old(buf)@[j] < 128,
    ensures
        final(buf)@ == old(buf)@ + deviation_ladder(w@),
        forall|j: int| 0 <= j < final(buf)@.len() ==> final(buf)@[j] < 128,
{
    let ghost base = buf@;
    let n = w.len();
    proof {
        assert(deviation_ladder_upto(w@, 1) =~= Seq::<u8>::empty());
        assert(buf@ =~= base + deviation_ladder_upto(w@, 1));
    }
    let mut k: usize = 1;
    while k < n
        invariant
            1 <= k,
            k <= n || k == 1,
            n == w@.len(),
            forall|m: int| 0 <= m < w@.len() ==> w@[m] < 128,
            buf@ == base + deviation_ladder_upto(w@, k as int),
            forall|m: int| 0 <= m < buf@.len() ==> buf@[m] < 128,
        decreases n - k,
    {
        buf.push(124);
        push_escaped(buf, w, k);
        buf.push(91);
        buf.push(94);
        buf.push(w[k]);
        buf.push(93);
        buf.push(124);
        push_escaped(buf, w, k);
        buf.push(36);
        k = k + 1;
        proof {
            assert(deviation_ladder_upto(w@, k as int) =~= deviation_ladder_upto(w@, k - 1)
                + deviation_rung(w@, k - 1));
            assert(buf@ =~= base + deviation_ladder_upto(w@, k as int));
        }
    }
    proof {
        if n <= 1 {
            assert(deviation_ladder(w@) =~= deviation_ladder_upto(w@, 1));
        }
        assert(buf@ =~= base + deviation_ladder(w@));
    }
}

/// Build the regex source matching errors other than those in `codes`.
pub fn error_regex(codes: &ErrorCodeSet) -> (r: String)
    ensures
        r@ == ascii_chars(error_regex_bytes(codes@)),
{
    let ice = ice_phrase_vec();
    let panicked = panic_phrase_vec();
    let mut buf: Vec<u8> = Vec::new();
    buf.push(40);
    buf.push(94);
    buf.push(101);
    buf.push(114);
    buf.push(114);
    buf.push(111);
    buf.push(114);
    buf.push(58);
    buf.push(32);
    buf.push(40);
    buf.push(63);
    buf.push(58);
    buf.push(91);
    buf.push(94);
    buf.push(105);
    buf.push(116);
    buf.push(93);
    buf.push(124);
    buf.push(36);
    proof {
        assert(buf@ =~= seq![
            40u8, 94, 101, 114, 114, 111, 114, 58, 32, 40, 63, 58, 91, 94, 105, 116, 93,
            124, 36,
        ]);
        assert(forall|k: int| 0 <= k < buf@.len() ==> buf@[k] < 128);
    }
    let ghost head = buf@;
    push_ladder(&mut buf, &ice);
    push_ladder(&mut buf, &panicked);
    buf.push(41);
    buf.push(124);
    buf.push(94);
    buf.push(101);
    buf.push(114);
    buf.push(114);
    buf.push(111);
    buf.push(114);
    buf.push(92);
    buf.push(91);
    buf.push(69);
    buf.push(40);
    proof {
        assert(buf@ =~= head + deviation_ladder(ice_phrase()) + deviation_ladder(
            panic_phrase(),
        ) + seq![41u8, 124, 94, 101, 114, 114, 111, 114, 92, 91, 69, 40]);
        assert(buf@ =~= filter_prefix());
        assert(forall|k: int| 0 <= k < buf@.len() ==> buf@[k] < 128);
    }

    let mut first: bool = true;
    let mut n: u16 = 0;
    while n < DIAGNOSTIC_CODE_SPACE
        invariant
            0 <= n <= DIAGNOSTIC_CODE_SPACE,
            buf@ == filter_prefix() + alternation_bytes(absent_codes_upto(codes@, n as int)),
            first <==> absent_codes_upto(codes@, n as int).len() == 0,
            forall|k: int| 0 <= k < buf@.len() ==> buf@[k] < 128,
        decreases DIAGNOSTIC_CODE_SPACE - n,
    {
        let ghost items = absent_codes_upto(codes@, n as int);
        if !codes.contains(n) {
            if !first {
                buf.push(BAR);
            }
            push_four_digits(&mut buf, n);
            first = false;
            proof {
                let stepped = absent_codes_upto(codes@, n + 1);
                assert(stepped =~= items + seq![n]);
                assert(stepped.drop_last() =~= items);
                assert(stepped.last() == n);
                if items.len() == 0 {
                    assert(alternation_bytes(stepped) =~= four_digits(n as int));
                } else {
                    assert(alternation_bytes(stepped) =~= alternation_bytes(items)
                        + seq![BAR] + four_digits(n as int));
                }
                assert(buf@ =~= filter_prefix() + alternation_bytes(stepped));
                crate::ascii::lemma_four_digits_are_digits(n as int);
            }
        } else {
            proof {
                assert(absent_codes_upto(codes@, n + 1) =~= items);
            }
        }
        n = n + 1;
    }

    buf.push(41);
    buf.push(92);
    buf.push(93);
    buf.push(58);
    buf.push(32);
    buf.push(41);
    proof {
        assert(buf@ =~= error_regex_bytes(codes@));
    }
    ascii_to_string(buf)
}

/// The optional user pattern, viewed.
pub open spec fn opt_pattern(user: Option<String>) -> Option<Seq<char>> {
    match user {
        Some(u) => Some(u@),
        None => None,
    }
}

/// The final uninteresting-stderr pattern: the user-supplied pattern,
/// if any, in disjunction with the synthesized error-code clause, in
/// multi-line mode.
pub open spec fn synthesized_filter(codes: Set<u16>, user: Option<Seq<char>>) -> Seq<char> {
    match user {
        Some(u) => "(?m)("@ + u + "|"@ + ascii_chars(error_regex_bytes(codes)) + ")"@,
        None => "(?m)"@ + ascii_chars(error_regex_bytes(codes)),
    }
}

/// Combine the harvested code set and the optional user-supplied
/// uninteresting pattern into the final differential filter source.
pub fn synthesize_uninteresting(codes: &ErrorCodeSet, user: &Option<String>) -> (r: String)
    ensures
        r@ == synthesized_filter(codes@, opt_pattern(*user)),
{
    let synthesized = error_regex(codes);
    let mut out = String::new();
    match user {
        Some(u) => {
            push_str(&mut out, "(?m)(");
            push_str(&mut out, u.as_str());
            push_str(&mut out, "|");
            push_str(&mut out, synthesized.as_str());
            push_str(&mut out, ")");
        },
        None => {
            push_str(&mut out, "(?m)");
            push_str(&mut out, synthesized.as_str());
        },
    }
    out
}

/// The uninteresting-stderr pattern of the reduction stage.  With
/// `allow_errors` the differential guarantee is explicitly traded
/// away and only the user's own pattern (if any) is kept; otherwise
/// the synthesized differential filter is attached, in disjunction
/// with the user's pattern.
pub fn reduction_filter(allow_errors: bool, codes: &ErrorCodeSet, user: &Option<String>) -> (r:
    Option<String>)
    ensures
        allow_errors ==> opt_pattern(r) == opt_pattern(*user),
        !allow_errors ==> (r matches Some(p) && p@ == synthesized_filter(
            codes@,
            opt_pattern(*user),
        )),
{
    if allow_errors {
        match user {
            Some(u) => Some(u.as_str().to_owned()),
            None => None,
        }
    } else {
        Some(synthesize_uninteresting(codes, user))
    }
}

/// Does a bare `error: ` line start at `i` whose continuation is
/// neither of the two canonical ICE/panic phrasings?
pub open spec fn bare_error_at(s: Seq<u8>, i: int) -> bool {
    &&& 0 <= i
    &&& (i == 0 || s[i - 1] == LF)
    &&& prefix_at(s, i, error_head())
    &&& !prefix_at(s, i + 7, ice_phrase())
    &&& !prefix_at(s, i + 7, panic_phrase())
}

/// Does a diagnostic code absent from `codes` (and inside the known
/// code space) start at `i`?
pub open spec fn foreign_code_at(codes: Set<u16>, s: Seq<u8>, i: int) -> bool {
    &&& code_marker_at(s, i)
    &&& code_value_at(s, i) < DIAGNOSTIC_CODE_SPACE
    &&& !codes.contains(code_value_at(s, i) as u16)
}

/// What the synthesized filter means on a stderr buffer: some line
/// shows a bare non-ICE `error:`, or some line shows a diagnostic code
/// the initial run did not have.
pub open spec fn differential_matches(codes: Set<u16>, s: Seq<u8>) -> bool {
    ||| exists|i: int| bare_error_at(s, i)
    ||| exists|i: int| foreign_code_at(codes, s, i)
}

/// Law: for every code set and every candidate stderr, a diagnostic
/// code outside the set appearing at a line start makes the
/// differential filter match, so the candidate is vetoed (by
/// `lemma_uninteresting_overrides`) whatever else its output shows.
pub proof fn lemma_filter_rejects_foreign_code(codes: Set<u16>, stderr: Seq<u8>, i: int)
    requires
        code_marker_at(stderr, i),
        code_value_at(stderr, i) < DIAGNOSTIC_CODE_SPACE,
        !codes.contains(code_value_at(stderr, i) as u16),
    ensures
        differential_matches(codes, stderr),
{
    assert(foreign_code_at(codes, stderr, i));
}

/// Law: the initial run passes the code clause of its own filter —
/// no diagnostic code of a stderr buffer is foreign to the set
/// harvested from that same buffer.
pub proof fn lemma_initial_run_has_no_foreign_code(stderr: Seq<u8>, i: int)
    requires
        code_marker_at(stderr, i),
    ensures
        !foreign_code_at(error_codes_in(stderr), stderr, i),
{
    let c = code_value_at(stderr, i);
    assert(0 <= c < 10000);
    if c < DIAGNOSTIC_CODE_SPACE {
        assert(code_marker_at(stderr, i) && code_value_at(stderr, i) == (c as u16));
        assert(error_codes_in(stderr).contains(c as u16));
    }
}

/// Does `w` stand at position `i` of `s`?
fn has_prefix(s: &[u8], i: usize, w: &Vec<u8>) -> (r: bool)
    requires
        i <= s@.len(),
    ensures
        r == prefix_at(s@, i as int, w@),
{
    let n = s.len();
    if w.len() > n - i {
        return false;
    }
    let mut j: usize = 0;
    while j < w.len()
        invariant
            0 <= j <= w@.len(),
            i + w@.len() <= n,
            n == s@.len(),
            forall|m: int| 0 <= m < j ==> s@[i + m] == w@[m],
        decreases w@.len() - j,
    {
        if s[i + j] != w[j] {
            proof {
                assert(s@[i + j] != w@[j as int]);
            }
            return false;
        }
        j = j + 1;
    }
    true
}

/// Does a bare non-ICE `error:` line start at `i`?
fn bare_at(s: &[u8], i: usize, ice: &Vec<u8>, panicked: &Vec<u8>) -> (r: bool)
    requires
        i < s@.len(),
        ice@ == ice_phrase(),
        panicked@ == panic_phrase(),
    ensures
        r == bare_error_at(s@, i as int),
{
    let n = s.len();
    if n - i < 7 {
        proof {
            assert(!prefix_at(s@, i as int, error_head()));
        }
        return false;
    }
    if i > 0 && s[i - 1] != LF {
        return false;
    }
    if !(s[i] == 101 && s[i + 1] == 114 && s[i + 2] == 114 && s[i + 3] == 111 && s[i + 4]
        == 114 && s[i + 5] == 58 && s[i + 6] == 32) {
        proof {
            assert(!prefix_at(s@, i as int, error_head()));
        }
        return false;
    }
    proof {
        assert(prefix_at(s@, i as int, error_head())) by {
            assert(forall|m: int| 0 <= m < 7 ==> s@[i + m] == error_head()[m]);
        }
    }
    if has_prefix(s, i + 7, ice) {
        return false;
    }
    if has_prefix(s, i + 7, panicked) {
        return false;
    }
    true
}

/// Decide [`differential_matches`] on a concrete stderr buffer.
pub fn matches_differential(codes: &ErrorCodeSet, stderr: &[u8]) -> (r: bool)
    ensures
        r == differential_matches(codes@, stderr@),
{
    let ice = ice_phrase_vec();
    let panicked = panic_phrase_vec();
    let mut i: usize = 0;
    while i < stderr.len()
        invariant
            0 <= i <= stderr@.len(),
            ice@ == ice_phrase(),
            panicked@ == panic_phrase(),
            forall|j: int| 0 <= j < i ==> !bare_error_at(stderr@, j),
            forall|j: int| 0 <= j < i ==> !foreign_code_at(codes@, stderr@, j),
        decreases stderr@.len() - i,
    {
        if bare_at(stderr, i, &ice, &panicked) {
            assert(bare_error_at(stderr@, i as int));
            return true;
        }
        if crate::codes::marker_at(stderr, i) {
            let c = crate::codes::code_at(stderr, i);
            if c < DIAGNOSTIC_CODE_SPACE && !codes.contains(c) {
                assert(foreign_code_at(codes@, stderr@, i as int));
                return true;
            }
        }
        i = i + 1;
    }
    proof {
        assert(forall|j: int| bare_error_at(stderr@, j) ==> 0 <= j < stderr@.len());
        assert(forall|j: int| foreign_code_at(codes@, stderr@, j) ==> 0 <= j < stderr@.len());
    }
    false
}

} // verus!
