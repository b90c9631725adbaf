//! The differential filter: synthesis and meaning.

use icemelter::codes::{extract_error_codes, ErrorCodeSet};
use icemelter::filter::{
    error_regex, matches_differential, reduction_filter, synthesize_uninteresting,
};

fn set_of(codes: &[u16]) -> ErrorCodeSet {
    ErrorCodeSet::from_codes(&codes.to_vec())
}

#[test]
fn error_regex_shape() {
    let rx = error_regex(&set_of(&[999]));
    // the bare-error clause: first byte deviates from both phrasings,
    // the line ends, or a phrasing is followed for a while and left
    assert!(rx.starts_with("(^error: (?:[^it]|$|i[^n]|i$|in[^t]|in$|int[^e]|int$"));
    assert!(rx.contains("internal compiler error[^:]|internal compiler error$"));
    assert!(rx.contains("|t[^h]|t$|th[^e]|th$"));
    // the dot of the panic phrasing is escaped in literal position
    assert!(rx.contains("unexpectedly panicked\\. this is a bug[^.]"));
    // then the code clause
    assert!(rx.contains(")|^error\\[E(0000|0001|"));
    assert!(rx.ends_with("|0998)\\]: )"));
    assert!(!rx.contains("|0999|"));
    assert!(rx.contains("|0998)"));
}

#[test]
fn synthesized_filter_wraps_user_pattern() {
    let with_user = synthesize_uninteresting(&set_of(&[308]), &Some(String::from("warning")));
    assert!(with_user.starts_with("(?m)(warning|(^error: (?:[^it]|$|"));
    assert!(with_user.ends_with(")"));
    let without = synthesize_uninteresting(&set_of(&[308]), &None);
    assert!(without.starts_with("(?m)(^error: (?:[^it]|$|"));
}

#[test]
fn reduction_filter_allow_errors_keeps_user_pattern() {
    let codes = set_of(&[999]);
    assert_eq!(
        reduction_filter(true, &codes, &Some(String::from("boom"))),
        Some(String::from("boom"))
    );
    assert_eq!(reduction_filter(true, &codes, &None), None);
    let synthesized = reduction_filter(false, &codes, &None).unwrap();
    assert!(synthesized.starts_with("(?m)("));
}

/// The synthesized pattern, compiled by the regex crate, means what
/// the byte-level model says: a code outside the harvested set
/// disqualifies, a harvested code does not.
#[test]
fn filter_agrees_with_model() {
    let codes = set_of(&[999]);
    let pattern = synthesize_uninteresting(&codes, &None);
    let re = regex::bytes::Regex::new(&pattern).unwrap();
    let samples: &[&str] = &[
        "error[E0999]: original failure\n",
        "error[E0308]: mismatched types\n",
        "error: internal compiler error: boom\n",
        "error: the compiler unexpectedly panicked. this is a bug.\n",
        "error: expected one of `,`\n",
        "note: error[E0308] quoted mid-line\n",
        "warning: unused variable\n",
        "error[E9999]: outside the known code space\n",
        "x\r\nerror[E0308]: after a carriage-return line\n",
        "error: internal\n",
        "error: type mismatch\n",
        "error: i\n",
        "error: \n",
        "error: internal compiler error\n",
        "error: the compiler unexpectedly panicked. this is a bug.\n",
        "",
    ];
    for sample in samples {
        assert_eq!(
            re.is_match(sample.as_bytes()),
            matches_differential(&codes, sample.as_bytes()),
            "disagreement on {sample:?}"
        );
    }
}

/// Scenario A: the initial run shows only E0999; a candidate showing
/// only E0999 (or no code) passes the filter, one showing E0308 is
/// disqualified.
#[test]
fn differential_filter_scenario() {
    let initial_stderr = b"error[E0999]: original failure\nerror: internal compiler error: boom\n";
    let codes = extract_error_codes(initial_stderr);
    assert!(codes.contains(999));
    assert!(!codes.contains(308));

    assert!(!matches_differential(&codes, b"error[E0999]: still the same\n"));
    assert!(!matches_differential(&codes, b"thread 'rustc' panicked\n"));
    assert!(matches_differential(&codes, b"error[E0308]: mismatched types\n"));
    assert!(matches_differential(&codes, b"error: expected one of `,`\n"));
    // the two canonical ICE phrasings are not disqualifying
    assert!(!matches_differential(
        &codes,
        b"error: internal compiler error: boom\n"
    ));
    assert!(!matches_differential(
        &codes,
        b"error: the compiler unexpectedly panicked. this is a bug.\n"
    ));
    // fresh errors that merely begin with the phrasings' first letters
    // are still disqualifying
    assert!(matches_differential(&codes, b"error: type mismatch\n"));
    assert!(matches_differential(&codes, b"error: internal error of mine\n"));
}

#[test]
fn code_extraction_needs_line_start_and_exact_shape() {
    let codes = extract_error_codes(
        b"error[E0277]: trait bound\nnote: error[E0308]: quoted\nerror[E0432]: unresolved\n",
    );
    assert!(codes.contains(277));
    assert!(codes.contains(432));
    // mid-line occurrences are not harvested
    assert!(!codes.contains(308));
    // absent entirely
    assert!(!codes.contains(999));
}

/// The initial run passes its own synthesized filter: every code it
/// shows was harvested, and its only bare `error:` lines are the ICE
/// phrasings.
#[test]
fn initial_run_passes_its_own_filter() {
    let s: &[u8] = b"error[E0999]: boom\nerror[E0425]: nope\nerror: internal compiler error: x\n";
    let codes = extract_error_codes(s);
    assert!(!matches_differential(&codes, s));
    let pattern = synthesize_uninteresting(&codes, &None);
    let re = regex::bytes::Regex::new(&pattern).unwrap();
    assert!(!re.is_match(s));
}
