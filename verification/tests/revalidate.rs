//! The post-reduction revalidation state machine.

use icemelter::oracle::{check, Oracle};
use icemelter::revalidate::{fmt, format_result, select_final, FormatResult};

fn oracle_with(cmd: &str) -> Oracle {
    check(false, 5000, vec![String::from(cmd)], None, None).unwrap()
}

/// Scenario D: the formatter could not be spawned; the unformatted
/// reduced bytes stay the final candidate.
#[test]
fn formatter_spawn_failure_keeps_reduced_bytes() {
    let oracle = oracle_with("true");
    let reduced = b"fn main(){}".to_vec();
    let result = fmt(&oracle, &reduced, None).unwrap();
    assert!(matches!(result, FormatResult::CouldntFormat));
    let fin = select_final(reduced.clone(), result);
    assert_eq!(fin, reduced);
}

/// Idempotence: revalidating an already-formatted candidate reports
/// no change and keeps the bytes.
#[test]
fn already_formatted_candidate_is_no_change() {
    let oracle = oracle_with("true");
    let reduced = b"fn main() {}\n".to_vec();
    let result = fmt(&oracle, &reduced, Some(reduced.clone())).unwrap();
    assert!(matches!(result, FormatResult::NoChange));
    let fin = select_final(reduced.clone(), result);
    assert_eq!(fin, reduced);
}

/// A rewrite that keeps the failure is adopted.
#[test]
fn interesting_rewrite_is_adopted() {
    // no interesting constraints configured: exit 0 means interesting
    let oracle = oracle_with("true");
    let reduced = b"fn main(){}".to_vec();
    let formatted = b"fn main() {}\n".to_vec();
    let result = fmt(&oracle, &reduced, Some(formatted.clone())).unwrap();
    match &result {
        FormatResult::Changed(out) => assert_eq!(out, &formatted),
        other => panic!("expected Changed, got {other:?}"),
    }
    assert_eq!(select_final(reduced, result), formatted);
}

/// A rewrite that loses the failure is discarded.
#[test]
fn rewrite_that_breaks_reproduction_is_discarded() {
    // `false` exits 1: with no constraints configured, not interesting
    let oracle = oracle_with("false");
    let reduced = b"fn main(){}".to_vec();
    let formatted = b"fn main() {}\n".to_vec();
    let result = fmt(&oracle, &reduced, Some(formatted)).unwrap();
    assert!(matches!(result, FormatResult::NoIce));
    assert_eq!(select_final(reduced.clone(), result), reduced);
}

#[test]
fn outcome_labels() {
    assert_eq!(format_result(&FormatResult::CouldntFormat), "❌ Couldn't format");
    assert_eq!(
        format_result(&FormatResult::NoChange),
        "✅ No change, already formatted"
    );
    assert_eq!(format_result(&FormatResult::NoIce), "❌ Formatting removed ICE");
    assert_eq!(format_result(&FormatResult::Changed(Vec::new())), "✅ Formatted!");
}
