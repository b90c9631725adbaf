//! Byte-level helpers shared by the filter synthesizer, the
//! diagnostic-code scanner and the snippet extractors.
//!
//! All textual data handled by the pipeline (compiler output, candidate
//! sources, issue bodies) is kept as byte buffers; these helpers give
//! names to the ASCII bytes the rules below care about and define how a
//! small decimal number is rendered as a fixed-width code.

use vstd::prelude::*;

verus! {

pub const LF: u8 = 10;
pub const CR: u8 = 13;
pub const SPACE: u8 = 32;
pub const HASH: u8 = 35;
pub const DIGIT_ZERO: u8 = 48;
pub const DIGIT_NINE: u8 = 57;
pub const COLON: u8 = 58;

/// Is `b` the ASCII code of a decimal digit?
pub open spec fn is_digit(b: u8) -> bool {
    DIGIT_ZERO <= b <= DIGIT_NINE
}

/// The numeric value of an ASCII digit.
pub open spec fn digit_value(b: u8) -> int {
    b - DIGIT_ZERO
}

/// The ASCII digit with value `v` (for `0 <= v <= 9`).
pub open spec fn digit_of(v: int) -> u8 {
    (DIGIT_ZERO + v) as u8
}

/// The four ASCII digits of `n`, most significant first, as printed in
/// a fixed-width diagnostic code (`7` becomes `0007`).
pub open spec fn four_digits(n: int) -> Seq<u8> {
    seq![
        digit_of(n / 1000 % 10),
        digit_of(n / 100 % 10),
        digit_of(n / 10 % 10),
        digit_of(n % 10),
    ]
}

/// The value named by four ASCII digits starting at `i` in `s`.
pub open spec fn four_digit_value(s: Seq<u8>, i: int) -> int {
    digit_value(s[i]) * 1000 + digit_value(s[i + 1]) * 100 + digit_value(s[i + 2]) * 10
        + digit_value(s[i + 3])
}

/// Render `n` as its four-digit fixed-width decimal form.
pub fn push_four_digits(out: &mut Vec<u8>, n: u16)
    requires
        n < 10000,
    ensures
        final(out)@ == old(out)@ + four_digits(n as int),
{
    let d0: u8 = (n / 1000 % 10) as u8 + DIGIT_ZERO;
    let d1: u8 = (n / 100 % 10) as u8 + DIGIT_ZERO;
    let d2: u8 = (n / 10 % 10) as u8 + DIGIT_ZERO;
    let d3: u8 = (n % 10) as u8 + DIGIT_ZERO;
    out.push(d0);
    out.push(d1);
    out.push(d2);
    out.push(d3);
    assert(out@ =~= old(out)@ + four_digits(n as int));
}

/// The characters named by a sequence of ASCII bytes.
pub open spec fn ascii_chars(s: Seq<u8>) -> Seq<char> {
    s.map(|_i: int, b: u8| b as char)
}

/// Relies on `String::from_utf8`: ASCII bytes decode to exactly the
/// characters of the same values.
#[verifier::external_body]
pub fn ascii_to_string(v: Vec<u8>) -> (r: String)
    requires
        forall|i: int| 0 <= i < v@.len() ==> v@[i] < 128,
    ensures
        r@ == ascii_chars(v@),
{
    match String::from_utf8(v) {
        Ok(s) => s,
        Err(_) => String::new(),
    }
}

/// Relies on `String::push_str`: it appends exactly the given slice.
#[verifier::external_body]
pub fn push_str(out: &mut String, s: &str)
    ensures
        final(out)@ == old(out)@ + s@,
{
    out.push_str(s);
}

/// Four digits render to four digit bytes.
pub proof fn lemma_four_digits_are_digits(n: int)
    requires
        0 <= n < 10000,
    ensures
        four_digits(n).len() == 4,
        forall|i: int| 0 <= i < 4 ==> is_digit(#[trigger] four_digits(n)[i]),
{
}

/// Rendering and reading back a four-digit code round-trips.
pub proof fn lemma_four_digits_value(n: int)
    requires
        0 <= n < 10000,
    ensures
        four_digit_value(four_digits(n), 0) == n,
{
    vstd::arithmetic::div_mod::lemma_fundamental_div_mod(n, 10);
    vstd::arithmetic::div_mod::lemma_fundamental_div_mod(n / 10, 10);
    vstd::arithmetic::div_mod::lemma_fundamental_div_mod(n / 100, 10);
    vstd::arithmetic::div_mod::lemma_fundamental_div_mod(n / 1000, 10);
    vstd::arithmetic::div_mod::lemma_div_denominator(n, 10, 10);
    vstd::arithmetic::div_mod::lemma_div_denominator(n, 100, 10);
    vstd::arithmetic::div_mod::lemma_div_denominator(n, 1000, 10);
    vstd::arithmetic::div_mod::lemma_basic_div(n, 10000);
}

} // verus!
