//! The reduction driver.
//!
//! The search strategy itself belongs to the external multi-pass
//! reduction engine.  The driver's responsibility is to parse the
//! source into the engine's tree representation, assemble the engine
//! configuration (oracle, worker budget, minimum reduction size), and
//! hand back the reduced bytes.  A parse failure or an internal
//! engine fault is fatal: the pipeline aborts before writing output.

use vstd::prelude::*;

use crate::errors::IceError;
use crate::oracle::Oracle;

verus! {

#[verifier::external_type_specification]
#[verifier::external_body]
pub struct ExLanguage(tree_sitter::Language);

#[verifier::external_type_specification]
#[verifier::external_body]
pub struct ExTree(tree_sitter::Tree);

#[verifier::external_type_specification]
#[verifier::external_body]
pub struct ExNodeTypes(treereduce::NodeTypes);

/// Relies on `tree_sitter_rust::LANGUAGE`: the grammar of the language
/// whose sources the pipeline reduces.
#[verifier::external_body]
pub(crate) fn rust_language() -> tree_sitter::Language {
    tree_sitter::Language::from(tree_sitter_rust::LANGUAGE)
}

/// Relies on `tree_sitter::Parser::{new, set_language, parse}` with
/// the bundled grammar.  `set_language` fails only on an ABI version
/// mismatch, and the two bundled crates are version-matched; `parse`
/// returns nothing only with no language set or with a cancellation,
/// timeout or progress callback configured, none of which this call
/// sets up.  So a tree always comes back.
#[verifier::external_body]
fn parse_rust(code: &[u8]) -> (r: Option<tree_sitter::Tree>)
    ensures
        r is Some,
{
    let mut parser = tree_sitter::Parser::new();
    if parser.set_language(&tree_sitter_rust::LANGUAGE.into()).is_err() {
        return None;
    }
    parser.parse(code, None)
}

/// Relies on `treereduce::NodeTypes::new` applied to
/// `tree_sitter_rust::NODE_TYPES`: the node-type metadata the engine
/// needs about the grammar.
#[verifier::external_body]
fn rust_node_types() -> (r: Option<treereduce::NodeTypes>) {
    match treereduce::NodeTypes::new(tree_sitter_rust::NODE_TYPES) {
        Ok(n) => Some(n),
        Err(_) => None,
    }
}

/// Relies on `treereduce::treereduce_multi_pass`: runs reduction
/// passes with `jobs` parallel workers until no further reduction is
/// found, returning the reduced bytes, or nothing on an internal
/// engine fault (its error type is not publicly nameable).
#[verifier::external_body]
fn run_multi_pass(
    language: tree_sitter::Language,
    node_types: &treereduce::NodeTypes,
    tree: tree_sitter::Tree,
    source: Vec<u8>,
    chk: treereduce::CmdCheck,
    jobs: usize,
    min_reduction: usize,
) -> (r: Option<Vec<u8>>) {
    let config = treereduce::Config {
        check: chk, delete_non_optional: false, jobs, min_reduction,
        replacements: std::collections::HashMap::new(),
    };
    let orig = treereduce::Original::new(tree, source);
    match treereduce::treereduce_multi_pass(language, node_types, orig, &config, None) {
        Ok((reduced, _stats)) => Some(reduced.text),
        Err(_) => None,
    }
}

/// Parse `code` with the bundled grammar.  Parsing is total: even
/// ill-formed input yields a tree (with error nodes), which is what
/// lets reduction work on broken candidates.
pub fn parse(code: &[u8]) -> (r: Result<tree_sitter::Tree, IceError>)
    ensures
        r is Ok,
{
    match parse_rust(code) {
        Some(tree) => Ok(tree),
        None => Err(IceError::ParseFailed),
    }
}

/// Reduce `source` with the external engine, bounded by `jobs`
/// parallel workers, under the interestingness test of `oracle`.
/// Returns the reduced bytes, or the engine's input unchanged when no
/// reduction was possible (the engine then reports the original).
pub fn reduce(source: &Vec<u8>, jobs: usize, oracle: &Oracle) -> (r: Result<Vec<u8>, IceError>)
    ensures
        r is Err ==> r == Err::<Vec<u8>, IceError>(IceError::ReductionFailed),
{
    let language = rust_language();
    let node_types = match rust_node_types() {
        Some(n) => n,
        None => {
            return Err(IceError::ReductionFailed);
        },
    };
    let tree = parse(source.as_slice())?;
    let mut copy: Vec<u8> = Vec::new();
    let mut i: usize = 0;
    while i < source.len()
        invariant
            0 <= i <= source@.len(),
            copy@ == source@.subrange(0, i as int),
        decreases source@.len() - i,
    {
        copy.push(source[i]);
        i = i + 1;
        proof {
            assert(copy@ =~= source@.subrange(0, i as int));
        }
    }
    proof {
        assert(copy@ =~= source@);
    }
    match run_multi_pass(language, &node_types, tree, copy, oracle.engine_check(), jobs, 1) {
        Some(reduced) => Ok(reduced),
        None => Err(IceError::ReductionFailed),
    }
}

} // verus!
