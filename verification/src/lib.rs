//! Minimizer support library for compiler-crash (ICE) test cases.
//!
//! The library verifies the decision logic of an ICE-minimization
//! pipeline: the interestingness oracle that classifies one run of the
//! compiler under test, the differential error-code filter that rejects
//! candidates exhibiting diagnostics absent from the original failing
//! run, the post-reduction revalidation state machine, and the
//! extraction of reproduction snippets and bisection reports.
//!
//! Stage by stage: [`source`] classifies the user's source argument;
//! [`github`] picks a reproduction snippet out of an issue body;
//! [`oracle`] builds and runs the interestingness test; [`validate`]
//! confirms the initial reproduction, harvests its diagnostic codes
//! ([`codes`]) and attaches the differential filter ([`filter`]);
//! [`reduce`] drives the external reduction engine; [`revalidate`]
//! decides what an external formatter's rewrite is worth; [`bisect`]
//! prepares and digests an external bisection run.

pub mod ascii;
pub mod bisect;
pub mod codes;
pub mod errors;
pub mod filter;
pub mod github;
pub mod levels;
pub mod lines;
pub mod oracle;
pub mod pattern;
pub mod reduce;
pub mod revalidate;
pub mod source;
pub mod validate;
