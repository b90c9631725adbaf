//! End-to-end stages against real spawned commands.

use icemelter::oracle::{check, ProcStatus};
use icemelter::reduce::reduce;
use icemelter::validate::check_initial_ice;

/// Initial validation harvests the diagnostic codes of the run.
#[test]
fn initial_validation_harvests_codes() {
    let oracle = check(
        false,
        5000,
        vec![
            String::from("sh"),
            String::from("-c"),
            String::from("echo 'error[E0999]: boom' >&2; echo 'internal compiler error: x' >&2; exit 101"),
        ],
        Some(String::from("internal compiler error:")),
        None,
    )
    .unwrap();
    let (codes, stderr) = check_initial_ice(&oracle, b"fn main() {}").unwrap();
    assert!(codes.contains(999));
    assert!(!codes.contains(308));
    let text = String::from_utf8_lossy(&stderr);
    assert!(text.contains("error[E0999]"));
}

/// A source that does not reproduce the failure is refused.
#[test]
fn non_reproducing_source_is_fatal() {
    let oracle = check(
        false,
        5000,
        vec![String::from("true")],
        Some(String::from("internal compiler error:")),
        None,
    )
    .unwrap();
    match check_initial_ice(&oracle, b"fn main() {}") {
        Err(e) => assert_eq!(e, icemelter::errors::IceError::NotReproducing),
        Ok(_) => panic!("expected the non-reproducing source to be refused"),
    }
}

/// Timeout monotonicity, live: a command that never terminates is
/// classified not interesting, never left pending.
#[test]
fn hanging_command_times_out_and_is_not_interesting() {
    let oracle = check(
        false,
        300,
        vec![String::from("sh"), String::from("-c"), String::from("sleep 30")],
        None,
        None,
    )
    .unwrap();
    let (interesting, run) = oracle.run(b"anything").unwrap();
    assert!(!interesting);
    assert_eq!(run.status, ProcStatus::TimedOut);
    assert!(run.stderr.is_empty());
}

/// An empty check command is a setup error.
#[test]
fn empty_check_command_is_refused() {
    match check(false, 1000, Vec::new(), None, None) {
        Err(e) => assert_eq!(e, icemelter::errors::IceError::EmptyCommand),
        Ok(_) => panic!("expected the empty command to be refused"),
    }
}

/// An invalid pattern is a setup error.
#[test]
fn invalid_regex_is_refused() {
    match check(
        false,
        1000,
        vec![String::from("true")],
        Some(String::from("(unclosed")),
        None,
    ) {
        Err(e) => assert_eq!(e, icemelter::errors::IceError::InvalidRegex),
        Ok(_) => panic!("expected the invalid pattern to be refused"),
    }
}

/// Scenario C, with a content oracle: a many-line source whose
/// interestingness is carrying one marker is reduced to a fraction
/// that still carries it.
#[test]
fn reduction_keeps_the_marker_and_shrinks() {
    // the check command reports the marker on stderr, where the
    // engine's own pattern matching (and ours) looks for it
    let oracle = check(
        false,
        5000,
        vec![
            String::from("sh"),
            String::from("-c"),
            String::from("grep melt_me \"$0\" 1>&2"),
        ],
        Some(String::from("melt_me")),
        None,
    )
    .unwrap();
    let mut source = String::new();
    source.push_str("fn melt_me() { println!(\"needed\"); }\n");
    for i in 0..60 {
        source.push_str(&format!("fn filler_{i}() {{ let x_{i} = {i}; }}\n"));
    }
    let source = source.into_bytes();

    let (interesting, _) = oracle.run(&source).unwrap();
    assert!(interesting);

    let reduced = reduce(&source.clone(), 2, &oracle).unwrap();
    let text = String::from_utf8_lossy(&reduced).into_owned();
    assert!(text.contains("melt_me"));
    assert!(reduced.len() < source.len() / 2);
    let (still_interesting, _) = oracle.run(&reduced).unwrap();
    assert!(still_interesting);
}

/// The full differential guarantee, live: the reduction oracle built
/// from an initial run showing only E0999 vetoes a candidate showing
/// E0308 or a fresh bare error, through the real pattern engine.
#[test]
fn reduction_oracle_vetoes_foreign_diagnostics() {
    // the simulated compiler replays the candidate file as its stderr
    let plan = icemelter::validate::configure_reduction(
        false,
        5000,
        vec![
            String::from("sh"),
            String::from("-c"),
            String::from("cat \"$0\" 1>&2; exit 101"),
        ],
        Some(String::from("internal compiler error:")),
        None,
        false,
        b"error[E0999]: boom\nerror: internal compiler error: x\n",
    )
    .unwrap();
    let (codes, _) = plan.harvested.as_ref().unwrap();
    assert!(codes.contains(999));

    let same_failure = b"error[E0999]: boom\nerror: internal compiler error: x\n";
    let (interesting, _) = plan.oracle.run(same_failure).unwrap();
    assert!(interesting);

    let no_codes_at_all = b"error: internal compiler error: x\n";
    let (interesting, _) = plan.oracle.run(no_codes_at_all).unwrap();
    assert!(interesting);

    let foreign_code = b"error[E0308]: mismatched types\nerror: internal compiler error: x\n";
    let (interesting, _) = plan.oracle.run(foreign_code).unwrap();
    assert!(!interesting);

    let fresh_bare_error = b"error: expected one of `,`\nerror: internal compiler error: x\n";
    let (interesting, _) = plan.oracle.run(fresh_bare_error).unwrap();
    assert!(!interesting);
}

/// Opting out of differential filtering keeps only the user pattern.
#[test]
fn allow_errors_skips_the_differential_filter() {
    let plan = icemelter::validate::configure_reduction(
        false,
        5000,
        vec![
            String::from("sh"),
            String::from("-c"),
            String::from("cat \"$0\" 1>&2; exit 101"),
        ],
        Some(String::from("internal compiler error:")),
        None,
        true,
        b"anything",
    )
    .unwrap();
    assert!(plan.harvested.is_none());
    let foreign_code = b"error[E0308]: mismatched types\nerror: internal compiler error: x\n";
    let (interesting, _) = plan.oracle.run(foreign_code).unwrap();
    assert!(interesting);
}
