//! Bisection support.
//!
//! Bisection hands the interestingness test to an external tool as a
//! shell predicate: a generated script that exits 1 exactly when the
//! compiler's output matches the interesting pattern.  The script text
//! is built here; running it, and the bisection tool, is the
//! surrounding application's work.  The tool's diagnostic report is
//! what stands after the second separator rule of its stderr, and is
//! extracted here.

use vstd::prelude::*;

use crate::ascii::CR;
use crate::ascii::LF;
use crate::ascii::push_str;
use crate::lines::lemma_split_lines_step;
use crate::lines::line_end;
use crate::lines::split_lines;
use crate::lines::strip_cr;
use vstd::slice::slice_subrange;

verus! {

pub const EQUALS: u8 = 61;

/// `'a'` — each argument single-quoted.
pub open spec fn quoted(a: Seq<char>) -> Seq<char> {
    "'"@ + a + "'"@
}

/// The arguments single-quoted and joined by spaces.
pub open spec fn quoted_join(args: Seq<Seq<char>>) -> Seq<char>
    decreases args.len(),
{
    if args.len() == 0 {
        Seq::empty()
    } else if args.len() == 1 {
        quoted(args[0])
    } else {
        quoted_join(args.drop_last()) + " "@ + quoted(args.last())
    }
}

/// The views of a vector of strings.
pub open spec fn string_views(args: Seq<String>) -> Seq<Seq<char>> {
    args.map_values(|s: String| s@)
}

/// The bisection predicate script: run the compiler under the
/// bisected toolchain on the candidate and exit 1 exactly when its
/// output matches the interesting pattern.
pub open spec fn bisect_script_spec(
    args: Seq<Seq<char>>,
    rs_path: Seq<char>,
    stderr_regex: Seq<char>,
) -> Seq<char> {
    "#!/usr/bin/env bash\nif rustup run \"${RUSTUP_TOOLCHAIN}\" rustc "@ + quoted_join(args)
        + " "@ + rs_path + " 2>&1 | egrep '"@ + stderr_regex + "'; then\n  exit 1\nfi\nexit 0\n"@
}

/// Materialize the bisection predicate script for the given compiler
/// arguments, candidate path and interesting pattern.
pub fn bisect_script(args: &Vec<String>, rs_path: &str, stderr_regex: &str) -> (r: String)
    ensures
        r@ == bisect_script_spec(string_views(args@), rs_path@, stderr_regex@),
{
    let mut out = String::new();
    push_str(&mut out, "#!/usr/bin/env bash\nif rustup run \"${RUSTUP_TOOLCHAIN}\" rustc ");
    let mut i: usize = 0;
    let ghost prefix = out@;
    while i < args.len()
        invariant
            0 <= i <= args@.len(),
            out@ == prefix + quoted_join(string_views(args@.subrange(0, i as int))),
        decreases args@.len() - i,
    {
        let ghost sofar = string_views(args@.subrange(0, i as int));
        if i > 0 {
            push_str(&mut out, " ");
        }
        push_str(&mut out, "'");
        push_str(&mut out, args[i].as_str());
        push_str(&mut out, "'");
        i = i + 1;
        proof {
            let now = string_views(args@.subrange(0, i as int));
            assert(now.drop_last() =~= sofar);
            assert(now.last() == args@[i - 1]@);
            if i == 1 {
                assert(quoted_join(now) =~= quoted(args@[0]@));
            } else {
                assert(quoted_join(now) =~= quoted_join(sofar) + " "@ + quoted(
                    args@[i - 1]@,
                ));
            }
            assert(out@ =~= prefix + quoted_join(now));
        }
    }
    proof {
        assert(args@.subrange(0, args@.len() as int) =~= args@);
    }
    push_str(&mut out, " ");
    push_str(&mut out, rs_path);
    push_str(&mut out, " 2>&1 | egrep '");
    push_str(&mut out, stderr_regex);
    push_str(&mut out, "'; then\n  exit 1\nfi\nexit 0\n");
    proof {
        assert(out@ =~= bisect_script_spec(string_views(args@), rs_path@, stderr_regex@));
    }
    out
}

/// The compiler arguments handed to bisection: the check command line
/// without the command itself, and without a leading `+toolchain`
/// selector (the bisected toolchain is chosen by the tool, not the
/// user).
pub open spec fn bisect_args_spec(cmd: Seq<Seq<char>>) -> Seq<Seq<char>> {
    if cmd.len() == 0 {
        cmd
    } else {
        let rest = cmd.drop_first();
        if rest.len() > 0 && rest[0].len() > 0 && rest[0][0] == '+' {
            rest.drop_first()
        } else {
            rest
        }
    }
}

/// Strip the command and any `+toolchain` selector off the check
/// command line.
pub fn bisect_args(check_cmd: &Vec<String>) -> (r: Vec<String>)
    ensures
        string_views(r@) == bisect_args_spec(string_views(check_cmd@)),
{
    let n = check_cmd.len();
    let start: usize = if n >= 2 && check_cmd[1].as_str().unicode_len() > 0
        && check_cmd[1].as_str().get_char(0) == '+' {
        2
    } else if n >= 1 {
        1
    } else {
        0
    };
    let mut r: Vec<String> = Vec::new();
    let mut i: usize = start;
    while i < n
        invariant
            start <= i <= n,
            n == check_cmd@.len(),
            r@.len() == i - start,
            forall|j: int| start <= j < i ==> r@[j - start]@ == check_cmd@[j]@,
        decreases n - i,
    {
        r.push(check_cmd[i].as_str().to_owned());
        i = i + 1;
    }
    proof {
        assert(string_views(r@) =~= bisect_args_spec(string_views(check_cmd@)));
    }
    r
}

/// Does the line open with a separator rule (82 equals signs)?
pub open spec fn starts_separator(l: Seq<u8>) -> bool {
    l.len() >= 82 && forall|j: int| 0 <= j < 82 ==> l[j] == EQUALS
}

/// The report extractor's state while walking stderr lines.
pub ghost struct ReportState {
    /// Separator rules seen so far.
    pub rules: int,
    /// At least one line has been collected.
    pub started: bool,
    /// The collected lines, joined by line feeds.
    pub out: Seq<u8>,
}

/// The state before any line is read.
pub open spec fn report_init() -> ReportState {
    ReportState { rules: 0, started: false, out: Seq::empty() }
}

/// One step of the report extractor: count separator rules; collect
/// every other line once two rules have passed.
pub open spec fn report_step(st: ReportState, line: Seq<u8>) -> ReportState {
    if starts_separator(line) {
        ReportState { rules: st.rules + 1, ..st }
    } else if st.rules >= 2 {
        ReportState {
            started: true,
            out: if st.started {
                st.out + seq![LF] + line
            } else {
                line
            },
            ..st
        }
    } else {
        st
    }
}

/// The report extractor run over a list of lines.
pub open spec fn report_run(st: ReportState, lines: Seq<Seq<u8>>) -> ReportState
    decreases lines.len(),
{
    if lines.len() == 0 {
        st
    } else {
        report_run(report_step(st, lines[0]), lines.drop_first())
    }
}

/// The bisection tool's report: the lines of its stderr after the
/// second separator rule, joined by line feeds.
pub open spec fn bisect_report_spec(stderr: Seq<u8>) -> Seq<u8> {
    report_run(report_init(), split_lines(stderr)).out
}

/// Does the line open with a separator rule?
fn starts_separator_exec(l: &[u8]) -> (r: bool)
    ensures
        r == starts_separator(l@),
{
    if l.len() < 82 {
        return false;
    }
    let mut j: usize = 0;
    while j < 82
        invariant
            0 <= j <= 82,
            l@.len() >= 82,
            forall|m: int| 0 <= m < j ==> l@[m] == EQUALS,
        decreases 82 - j,
    {
        if l[j] != EQUALS {
            return false;
        }
        j = j + 1;
    }
    true
}

/// Extract the bisection tool's report from its captured stderr.
pub fn bisect_report(stderr: &[u8]) -> (r: Vec<u8>)
    ensures
        r@ == bisect_report_spec(stderr@),
{
    let n = stderr.len();
    let mut rules: usize = 0;
    let mut started: bool = false;
    let mut out: Vec<u8> = Vec::new();
    let mut i: usize = 0;
    proof {
        assert(stderr@.skip(0) =~= stderr@);
    }
    while i < n
        invariant
            0 <= i <= n,
            n == stderr@.len(),
            rules <= i,
            !started ==> out@.len() == 0,
            report_run(
                ReportState { rules: rules as int, started: started, out: out@ },
                split_lines(stderr@.skip(i as int)),
            ) == report_run(report_init(), split_lines(stderr@)),
        decreases n - i,
    {
        let ghost st0 = ReportState { rules: rules as int, started: started, out: out@ };
        let e = line_end(stderr, i);
        let has_lf = e < n;
        let stripped_end = if has_lf && e > i && stderr[e - 1] == CR {
            e - 1
        } else {
            e
        };
        let line = slice_subrange(stderr, i, stripped_end);
        let next = if has_lf {
            e + 1
        } else {
            e
        };
        proof {
            lemma_split_lines_step(stderr@, i as int, e as int);
            if has_lf {
                assert(strip_cr(stderr@.subrange(i as int, e as int)) =~= line@);
            } else {
                assert(stderr@.skip(i as int) =~= line@);
                assert(split_lines(stderr@.skip(next as int)) =~= Seq::<Seq<u8>>::empty());
            }
            let ls = split_lines(stderr@.skip(i as int));
            assert(ls[0] == line@);
            assert(ls.drop_first() =~= split_lines(stderr@.skip(next as int)));
            assert(report_run(st0, ls) == report_run(report_step(st0, line@), ls.drop_first()));
        }
        if starts_separator_exec(line) {
            rules = rules + 1;
        } else if rules >= 2 {
            if started {
                out.push(LF);
            }
            let ghost base = out@;
            let mut k: usize = 0;
            while k < line.len()
                invariant
                    0 <= k <= line@.len(),
                    out@ == base + line@.subrange(0, k as int),
                decreases line@.len() - k,
            {
                out.push(line[k]);
                k = k + 1;
                proof {
                    assert(out@ =~= base + line@.subrange(0, k as int));
                }
            }
            proof {
                assert(out@ =~= base + line@);
                if st0.started {
                    assert(base =~= st0.out + seq![LF]);
                } else {
                    assert(base =~= Seq::<u8>::empty());
                }
            }
            started = true;
        }
        proof {
            let st1 = ReportState { rules: rules as int, started: started, out: out@ };
            assert(st1 == report_step(st0, line@));
        }
        i = next;
    }
    proof {
        assert(split_lines(stderr@.skip(n as int)) =~= Seq::<Seq<u8>>::empty());
    }
    out
}

} // verus!
