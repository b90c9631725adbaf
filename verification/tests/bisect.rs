//! Bisection script generation and report extraction.

use icemelter::bisect::{bisect_args, bisect_report, bisect_script};

const RULE: &str = "==================================================================================";

#[test]
fn script_text_is_exact() {
    let args = vec![String::from("--edition"), String::from("2021")];
    let script = bisect_script(&args, "/tmp/case.rs", "internal compiler error:");
    let expected = "#!/usr/bin/env bash\n\
        if rustup run \"${RUSTUP_TOOLCHAIN}\" rustc '--edition' '2021' /tmp/case.rs \
        2>&1 | egrep 'internal compiler error:'; then\n  exit 1\nfi\nexit 0\n";
    assert_eq!(script, expected);
}

#[test]
fn script_with_no_args_leaves_double_space() {
    let script = bisect_script(&Vec::new(), "/tmp/case.rs", "boom");
    assert!(script.contains("rustc  /tmp/case.rs 2>&1 | egrep 'boom';"));
}

#[test]
fn report_is_what_follows_the_second_rule() {
    let stderr = format!(
        "searching for regression\n{RULE}\nprogress\n{RULE}\nregression in nightly-2023-01-01\nmore detail\n"
    );
    let report = bisect_report(stderr.as_bytes());
    assert_eq!(
        String::from_utf8(report).unwrap(),
        "regression in nightly-2023-01-01\nmore detail"
    );
}

#[test]
fn fewer_than_two_rules_means_empty_report() {
    let stderr = format!("noise\n{RULE}\nnoise after one rule\n");
    assert!(bisect_report(stderr.as_bytes()).is_empty());
    assert!(bisect_report(b"no rules at all\n").is_empty());
}

#[test]
fn later_rules_are_not_collected() {
    let stderr = format!("{RULE}\n{RULE}\nkept\n{RULE}\nalso kept\n");
    assert_eq!(
        String::from_utf8(bisect_report(stderr.as_bytes())).unwrap(),
        "kept\nalso kept"
    );
}

#[test]
fn bisection_args_drop_command_and_toolchain_selector() {
    let cmd = vec![
        String::from("rustc"),
        String::from("+nightly"),
        String::from("--edition"),
        String::from("2021"),
    ];
    assert_eq!(bisect_args(&cmd), vec![String::from("--edition"), String::from("2021")]);
    let plain = vec![String::from("rustc"), String::from("--edition"), String::from("2021")];
    assert_eq!(bisect_args(&plain), vec![String::from("--edition"), String::from("2021")]);
    assert_eq!(bisect_args(&vec![String::from("rustc")]), Vec::<String>::new());
    assert_eq!(bisect_args(&Vec::new()), Vec::<String>::new());
}
