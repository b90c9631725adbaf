//! Harvesting diagnostic codes from the initial run's stderr.
//!
//! The initial validation scans stderr for every occurrence of
//! `error[E####]: ` at the start of a line and collects the distinct
//! four-digit codes into an [`ErrorCodeSet`].  The set is captured
//! once, is immutable afterwards, and only parameterizes the
//! differential filter synthesizer.

use vstd::prelude::*;

use crate::ascii::DIGIT_ZERO;
use crate::ascii::LF;
use crate::ascii::four_digit_value;
use crate::ascii::is_digit;

verus! {

pub const LOWER_E: u8 = 101;
pub const LOWER_O: u8 = 111;
pub const LOWER_R: u8 = 114;
pub const UPPER_E: u8 = 69;
pub const LEFT_BRACKET: u8 = 91;
pub const RIGHT_BRACKET: u8 = 93;

/// Does `error[E` stand at `i` in `s`, at the start of a line, and is
/// it followed by four digits and `]: `?
pub open spec fn code_marker_at(s: Seq<u8>, i: int) -> bool {
    &&& 0 <= i
    &&& i + 14 <= s.len()
    &&& (i == 0 || s[i - 1] == LF)
    &&& s[i] == LOWER_E
    &&& s[i + 1] == LOWER_R
    &&& s[i + 2] == LOWER_R
    &&& s[i + 3] == LOWER_O
    &&& s[i + 4] == LOWER_R
    &&& s[i + 5] == LEFT_BRACKET
    &&& s[i + 6] == UPPER_E
    &&& is_digit(s[i + 7])
    &&& is_digit(s[i + 8])
    &&& is_digit(s[i + 9])
    &&& is_digit(s[i + 10])
    &&& s[i + 11] == RIGHT_BRACKET
    &&& s[i + 12] == crate::ascii::COLON
    &&& s[i + 13] == crate::ascii::SPACE
}

/// The value of the four-digit code standing at marker position `i`.
pub open spec fn code_value_at(s: Seq<u8>, i: int) -> int {
    four_digit_value(s, i + 7)
}

/// Every distinct diagnostic code that occurs at a line start in `s`.
pub open spec fn error_codes_in(s: Seq<u8>) -> Set<u16> {
    Set::new(|c: u16| exists|i: int| code_marker_at(s, i) && code_value_at(s, i) == c)
}

/// The set of diagnostic codes present in the initial failing run.
/// Codes are fixed-width four-digit identifiers, so every member is
/// below 10000.
pub struct ErrorCodeSet {
    codes: Vec<u16>,
}

impl View for ErrorCodeSet {
    type V = Set<u16>;

    closed spec fn view(&self) -> Set<u16> {
        self.codes@.to_set()
    }
}

impl ErrorCodeSet {
    /// Every member is a four-digit code.
    pub closed spec fn wf(&self) -> bool {
        forall|j: int| 0 <= j < self.codes@.len() ==> self.codes@[j] < 10000
    }

    /// The empty set.
    pub fn new() -> (r: ErrorCodeSet)
        ensures
            r@ == Set::<u16>::empty(),
            r.wf(),
    {
        let r = ErrorCodeSet { codes: Vec::new() };
        proof {
            assert(r@ =~= Set::<u16>::empty());
        }
        r
    }

    /// A set holding exactly the given codes (for configuration and
    /// tests); codes of five or more digits are not representable and
    /// are left out.
    pub fn from_codes(codes: &Vec<u16>) -> (r: ErrorCodeSet)
        ensures
            r@ == Set::new(|c: u16| codes@.contains(c) && c < 10000),
            r.wf(),
    {
        let mut r = ErrorCodeSet::new();
        let mut i: usize = 0;
        while i < codes.len()
            invariant
                0 <= i <= codes@.len(),
                r.wf(),
                r@ == Set::new(
                    |c: u16| codes@.subrange(0, i as int).contains(c) && c < 10000,
                ),
            decreases codes@.len() - i,
        {
            let ghost prev = r@;
            if codes[i] < 10000 {
                r.insert(codes[i]);
            }
            i = i + 1;
            proof {
                assert(r@ =~= Set::new(
                    |c: u16| codes@.subrange(0, i as int).contains(c) && c < 10000,
                )) by {
                    assert(forall|c: u16| codes@.subrange(0, i as int).contains(c)
                        <==> codes@.subrange(0, i - 1).contains(c) || c == codes@[i - 1]) by {
                        assert(forall|j: int| 0 <= j < i - 1
                            ==> codes@.subrange(0, i as int)[j] == codes@.subrange(0, i - 1)[j]);
                        assert(codes@.subrange(0, i as int)[i - 1] == codes@[i - 1]);
                    }
                }
            }
        }
        proof {
            assert(codes@.subrange(0, codes@.len() as int) =~= codes@);
            assert(r@ =~= Set::new(|c: u16| codes@.contains(c) && c < 10000));
        }
        r
    }

    /// Add one code.
    pub fn insert(&mut self, code: u16)
        requires
            code < 10000,
            old(self).wf(),
        ensures
            final(self)@ == old(self)@.insert(code),
            final(self).wf(),
    {
        if !self.contains(code) {
            self.codes.push(code);
            proof {
                let oc = old(self).codes@;
                assert forall|c: u16|
                    self.codes@.contains(c) <==> (oc.contains(c) || c == code) by {
                    if oc.contains(c) {
                        let k = choose|k: int| 0 <= k < oc.len() && oc[k] == c;
                        assert(self.codes@[k] == c);
                    }
                    if c == code {
                        assert(self.codes@[oc.len() as int] == c);
                    }
                    if self.codes@.contains(c) {
                        let k = choose|k: int|
                            0 <= k < self.codes@.len() && self.codes@[k] == c;
                        if k < oc.len() {
                            assert(oc[k] == c);
                        }
                    }
                }
            }
        }
        proof {
            assert(self@ =~= old(self)@.insert(code));
        }
    }

    /// Is `code` a member?
    pub fn contains(&self, code: u16) -> (r: bool)
        ensures
            r == self@.contains(code),
    {
        let mut i: usize = 0;
        while i < self.codes.len()
            invariant
                0 <= i <= self.codes@.len(),
                forall|j: int| 0 <= j < i ==> self.codes@[j] != code,
            decreases self.codes@.len() - i,
        {
            if self.codes[i] == code {
                return true;
            }
            i = i + 1;
        }
        false
    }
}

/// Does a diagnostic-code marker stand at position `i` of `s`?
pub(crate) fn marker_at(s: &[u8], i: usize) -> (r: bool)
    requires
        i < s@.len(),
    ensures
        r == code_marker_at(s@, i as int),
{
    if s.len() - i < 14 {
        return false;
    }
    if i > 0 && s[i - 1] != LF {
        return false;
    }
    s[i] == LOWER_E && s[i + 1] == LOWER_R && s[i + 2] == LOWER_R && s[i + 3] == LOWER_O
        && s[i + 4] == LOWER_R && s[i + 5] == LEFT_BRACKET && s[i + 6] == UPPER_E
        && s[i + 7] >= DIGIT_ZERO && s[i + 7] <= crate::ascii::DIGIT_NINE
        && s[i + 8] >= DIGIT_ZERO && s[i + 8] <= crate::ascii::DIGIT_NINE
        && s[i + 9] >= DIGIT_ZERO && s[i + 9] <= crate::ascii::DIGIT_NINE
        && s[i + 10] >= DIGIT_ZERO && s[i + 10] <= crate::ascii::DIGIT_NINE
        && s[i + 11] == RIGHT_BRACKET && s[i + 12] == crate::ascii::COLON
        && s[i + 13] == crate::ascii::SPACE
}

/// Read the four-digit code at marker position `i`.
pub(crate) fn code_at(s: &[u8], i: usize) -> (r: u16)
    requires
        code_marker_at(s@, i as int),
    ensures
        r == code_value_at(s@, i as int),
        r < 10000,
{
    let n = s.len();
    assert(n == s@.len());
    let d0 = (s[i + 7] - DIGIT_ZERO) as u16;
    let d1 = (s[i + 8] - DIGIT_ZERO) as u16;
    let d2 = (s[i + 9] - DIGIT_ZERO) as u16;
    let d3 = (s[i + 10] - DIGIT_ZERO) as u16;
    d0 * 1000 + d1 * 100 + d2 * 10 + d3
}

/// Scan stderr for every `error[E####]: ` line start and collect the
/// distinct codes.  Absence of any code is valid: crash modes need not
/// come with numbered diagnostics.
pub fn extract_error_codes(stderr: &[u8]) -> (r: ErrorCodeSet)
    ensures
        r@ == error_codes_in(stderr@),
        r.wf(),
{
    let mut r = ErrorCodeSet::new();
    let mut i: usize = 0;
    while i < stderr.len()
        invariant
            0 <= i <= stderr@.len(),
            r.wf(),
            r@ == Set::new(
                |c: u16| exists|j: int|
                    j < i && code_marker_at(stderr@, j) && code_value_at(stderr@, j) == c,
            ),
        decreases stderr@.len() - i,
    {
        if marker_at(stderr, i) {
            let c = code_at(stderr, i);
            r.insert(c);
        }
        i = i + 1;
        proof {
            assert(r@ =~= Set::new(
                |c: u16| exists|j: int|
                    j < i && code_marker_at(stderr@, j) && code_value_at(stderr@, j) == c,
            ));
        }
    }
    proof {
        assert(r@ =~= error_codes_in(stderr@)) by {
            assert(forall|j: int| code_marker_at(stderr@, j) ==> j < stderr@.len());
        }
    }
    r
}

} // verus!
