//! Retrieving a reproduction snippet from an issue body.
//!
//! An issue body is markdown; the reproduction is the first fenced
//! `rust` code block under a `### Code` heading.  Fetching the body is
//! the HTTP client's work; picking the snippet out of it is verified
//! here, as a state machine over the body's lines.

use vstd::prelude::*;

use crate::ascii::HASH;
use crate::ascii::LF;
use crate::ascii::CR;
use crate::ascii::SPACE;
use crate::errors::IceError;
use crate::lines::lemma_split_lines_step;
use crate::lines::line_end;
use crate::lines::split_lines;
use crate::lines::strip_cr;
use vstd::slice::slice_subrange;

verus! {

pub const BACKTICK: u8 = 96;

/// Does the line start with `#`?
pub open spec fn starts_hash(l: Seq<u8>) -> bool {
    l.len() >= 1 && l[0] == HASH
}

/// Does the line start with `### Code`?
pub open spec fn starts_code_heading(l: Seq<u8>) -> bool {
    &&& l.len() >= 8
    &&& l[0] == HASH
    &&& l[1] == HASH
    &&& l[2] == HASH
    &&& l[3] == SPACE
    &&& l[4] == 67
    &&& l[5] == 111
    &&& l[6] == 100
    &&& l[7] == 101
}

/// Does the line start with a code fence, three backticks?
pub open spec fn starts_fence(l: Seq<u8>) -> bool {
    l.len() >= 3 && l[0] == BACKTICK && l[1] == BACKTICK && l[2] == BACKTICK
}

/// Does the line start with a `rust` (or `Rust`) code fence?
pub open spec fn starts_rust_fence(l: Seq<u8>) -> bool {
    &&& l.len() >= 7
    &&& starts_fence(l)
    &&& (l[3] == 114 || l[3] == 82)
    &&& l[4] == 117
    &&& l[5] == 115
    &&& l[6] == 116
}

/// The extractor's state while walking the body's lines.
pub ghost struct ExtractState {
    /// Standing under a `### Code` heading.
    pub in_section: bool,
    /// Standing inside a fenced `rust` block of such a section.
    pub in_code: bool,
    /// The first block has been closed; nothing more is collected.
    pub done: bool,
    /// At least one line has been collected.
    pub started: bool,
    /// The collected lines, joined by line feeds.
    pub out: Seq<u8>,
}

/// The state before any line is read.
pub open spec fn init_state() -> ExtractState {
    ExtractState { in_section: false, in_code: false, done: false, started: false, out: Seq::empty() }
}

/// `st.out` with `line` appended.
pub open spec fn push_line(st: ExtractState, line: Seq<u8>) -> Seq<u8> {
    if st.started {
        st.out + seq![LF] + line
    } else {
        line
    }
}

/// One step of the extractor.
pub open spec fn step(st: ExtractState, line: Seq<u8>) -> ExtractState {
    if st.done {
        st
    } else if st.in_code {
        if starts_fence(line) {
            ExtractState { in_code: false, done: true, ..st }
        } else {
            ExtractState { started: true, out: push_line(st, line), ..st }
        }
    } else {
        let in_section = if starts_code_heading(line) {
            true
        } else if starts_hash(line) {
            false
        } else {
            st.in_section
        };
        ExtractState {
            in_section,
            in_code: starts_rust_fence(line) && in_section,
            ..st
        }
    }
}

/// The extractor run over a list of lines.
pub open spec fn run_lines(st: ExtractState, lines: Seq<Seq<u8>>) -> ExtractState
    decreases lines.len(),
{
    if lines.len() == 0 {
        st
    } else {
        run_lines(step(st, lines[0]), lines.drop_first())
    }
}

/// The reproduction snippet of an issue body: the lines of the first
/// fenced `rust` block under a `### Code` heading, joined by line
/// feeds (empty if there is no such block).
pub open spec fn extract_reproduction_spec(body: Seq<u8>) -> Seq<u8> {
    run_lines(init_state(), split_lines(body)).out
}

/// Does the line start with `#`?
fn starts_hash_exec(l: &[u8]) -> (r: bool)
    ensures
        r == starts_hash(l@),
{
    l.len() >= 1 && l[0] == HASH
}

/// Does the line start with `### Code`?
fn starts_code_heading_exec(l: &[u8]) -> (r: bool)
    ensures
        r == starts_code_heading(l@),
{
    l.len() >= 8 && l[0] == HASH && l[1] == HASH && l[2] == HASH && l[3] == SPACE && l[4] == 67
        && l[5] == 111 && l[6] == 100 && l[7] == 101
}

/// Does the line start with three backticks?
fn starts_fence_exec(l: &[u8]) -> (r: bool)
    ensures
        r == starts_fence(l@),
{
    l.len() >= 3 && l[0] == BACKTICK && l[1] == BACKTICK && l[2] == BACKTICK
}

/// Does the line start with a `rust` or `Rust` fence?
fn starts_rust_fence_exec(l: &[u8]) -> (r: bool)
    ensures
        r == starts_rust_fence(l@),
{
    l.len() >= 7 && l[0] == BACKTICK && l[1] == BACKTICK && l[2] == BACKTICK
        && (l[3] == 114 || l[3] == 82) && l[4] == 117 && l[5] == 115 && l[6] == 116
}

/// Pick the reproduction snippet out of an issue body.
pub fn extract_reproduction(body: &[u8]) -> (r: Vec<u8>)
    ensures
        r@ == extract_reproduction_spec(body@),
{
    let n = body.len();
    let mut in_section: bool = false;
    let mut in_code: bool = false;
    let mut done: bool = false;
    let mut started: bool = false;
    let mut out: Vec<u8> = Vec::new();
    let mut i: usize = 0;
    proof {
        assert(body@.skip(0) =~= body@);
    }
    while i < n
        invariant
            0 <= i <= n,
            n == body@.len(),
            !started ==> out@.len() == 0,
            run_lines(
                ExtractState {
                    in_section: in_section,
                    in_code: in_code,
                    done: done,
                    started: started,
                    out: out@,
                },
                split_lines(body@.skip(i as int)),
            ) == run_lines(init_state(), split_lines(body@)),
        decreases n - i,
    {
        let ghost st0 = ExtractState {
            in_section: in_section,
            in_code: in_code,
            done: done,
            started: started,
            out: out@,
        };
        let e = line_end(body, i);
        let has_lf = e < n;
        let stripped_end = if has_lf && e > i && body[e - 1] == CR {
            e - 1
        } else {
            e
        };
        let line = slice_subrange(body, i, stripped_end);
        let next = if has_lf {
            e + 1
        } else {
            e
        };
        proof {
            lemma_split_lines_step(body@, i as int, e as int);
            if has_lf {
                assert(strip_cr(body@.subrange(i as int, e as int)) =~= line@);
                assert(split_lines(body@.skip(i as int)) =~= seq![line@] + split_lines(
                    body@.skip(next as int),
                ));
            } else {
                assert(body@.skip(i as int) =~= line@);
                assert(split_lines(body@.skip(i as int)) =~= seq![line@] + split_lines(
                    body@.skip(next as int),
                ));
                assert(split_lines(body@.skip(next as int)) =~= Seq::<Seq<u8>>::empty());
            }
            let ls = split_lines(body@.skip(i as int));
            assert(ls[0] == line@);
            assert(ls.drop_first() =~= split_lines(body@.skip(next as int)));
            assert(run_lines(st0, ls) == run_lines(step(st0, line@), ls.drop_first()));
        }
        if !done {
            if in_code {
                if starts_fence_exec(line) {
                    in_code = false;
                    done = true;
                } else {
                    if started {
                        out.push(LF);
                    }
                    let mut k: usize = 0;
                    let ghost base = out@;
                    while k < line.len()
                        invariant
                            0 <= k <= line@.len(),
                            out@ == base + line@.subrange(0, k as int),
                        decreases line@.len() - k,
                    {
                        out.push(line[k]);
                        k = k + 1;
                        proof {
                            assert(out@ =~= base + line@.subrange(0, k as int));
                        }
                    }
                    proof {
                        assert(out@ =~= base + line@);
                        if st0.started {
                            assert(base =~= st0.out + seq![LF]);
                        } else {
                            assert(base =~= Seq::<u8>::empty());
                        }
                        assert(out@ =~= push_line(st0, line@));
                    }
                    started = true;
                }
            } else {
                if starts_code_heading_exec(line) {
                    in_section = true;
                } else if starts_hash_exec(line) {
                    in_section = false;
                }
                in_code = starts_rust_fence_exec(line) && in_section;
            }
        }
        proof {
            let st1 = ExtractState {
                in_section: in_section,
                in_code: in_code,
                done: done,
                started: started,
                out: out@,
            };
            assert(st1 == step(st0, line@));
        }
        i = next;
    }
    proof {
        assert(split_lines(body@.skip(n as int)) =~= Seq::<Seq<u8>>::empty());
    }
    out
}

/// Credentials for the issue tracker, read from the environment by the
/// surrounding application.
pub struct Config {
    pub token: String,
}

/// The name of the environment variable holding the token.
pub fn env_var_name() -> (r: &'static str)
    ensures
        r@ == "GITHUB_TOKEN"@,
{
    "GITHUB_TOKEN"
}

/// An issue: its number and the raw bytes of its markdown body.
pub struct Issue {
    pub number: usize,
    pub body: Vec<u8>,
}

/// Relies on reqwest's blocking client (builder, `get`, `bearer_auth`,
/// `send`, `error_for_status`, `json`) and on `serde_json::Value`
/// field access: fetches the numbered issue of the compiler's tracker
/// and hands back its number and body.  Nothing is assumed of the
/// network's answer; the only errors constructed are the fetch and
/// malformed-payload conditions.
#[verifier::external_body]
pub fn get_issue(config: &Config, number: usize) -> (r: Result<Issue, IceError>)
    ensures
        r matches Err(e) ==> (e == IceError::FetchFailed || e == IceError::MalformedIssue),
{
    let url = format!("https://api.github.com/repos/rust-lang/rust/issues/{number}");
    let client = reqwest::blocking::Client::builder().user_agent("icemelter").build();
    let v: serde_json::Value = match client.and_then(|c| {
        c.get(url).bearer_auth(&config.token).send()?.error_for_status()?.json()
    }) {
        Ok(v) => v,
        Err(_) => return Err(IceError::FetchFailed),
    };
    match (v.get("number").and_then(|x| x.as_u64()), v.get("body").and_then(|x| x.as_str())) {
        (Some(num), Some(body)) => Ok(Issue { number: num as usize, body: body.as_bytes().to_vec() }),
        _ => Err(IceError::MalformedIssue),
    }
}

/// Fetch the numbered issue and pick the reproduction snippet out of
/// its body.  Whatever body the tracker answers with, the result is
/// exactly that body's extracted snippet.
pub fn retrieve_from_github(config: &Config, issue_number: usize) -> (r: Result<
    Vec<u8>,
    IceError,
>)
    ensures
        r matches Ok(code) ==> exists|body: Seq<u8>| code@ == extract_reproduction_spec(body),
        r matches Err(e) ==> (e == IceError::FetchFailed || e == IceError::MalformedIssue),
{
    let issue = get_issue(config, issue_number)?;
    let code = extract_reproduction(issue.body.as_slice());
    proof {
        assert(code@ == extract_reproduction_spec(issue.body@));
    }
    Ok(code)
}

} // verus!
