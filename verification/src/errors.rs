//! Fatal error conditions of the minimization pipeline.

use vstd::prelude::*;

verus! {

/// Everything that aborts the pipeline before a reduced file is
/// written.  Formatter and bisection failures are deliberately absent:
/// those are recovered from and never surface as an `IceError`.
#[derive(Clone, Copy, Debug, PartialEq, Eq, Structural)]
pub enum IceError {
    /// The interestingness check was configured with an empty command.
    EmptyCommand,
    /// An interesting or uninteresting pattern did not compile.
    InvalidRegex,
    /// The unmodified source did not reproduce the failure.
    NotReproducing,
    /// Spawning or awaiting the checked command failed.
    OracleIo,
    /// The source could not be parsed into a syntax tree.
    ParseFailed,
    /// The external reduction engine reported an internal fault.
    ReductionFailed,
    /// The issue body could not be retrieved.
    FetchFailed,
    /// The issue payload lacked the expected number or body field.
    MalformedIssue,
    /// An issue reference named a number too large to handle.
    IssueNumberTooLarge,
}

impl IceError {
    /// A short, user-facing description of the condition.
    pub fn describe(&self) -> (r: &'static str)
        ensures
            r@ == self.describe_spec(),
    {
        match self {
            IceError::EmptyCommand => "empty interestingness check",
            IceError::InvalidRegex => "invalid stderr regex",
            IceError::NotReproducing => "the file doesn't seem to produce an ICE",
            IceError::OracleIo => "failed to run the interestingness check",
            IceError::ParseFailed => "failed to parse code",
            IceError::ReductionFailed => "failed when reducing the program",
            IceError::FetchFailed => "failed to retrieve issue",
            IceError::MalformedIssue => "malformed issue payload",
            IceError::IssueNumberTooLarge => "couldn't extract number from issue reference",
        }
    }

    /// The description each condition carries.
    pub open spec fn describe_spec(&self) -> Seq<char> {
        match self {
            IceError::EmptyCommand => "empty interestingness check"@,
            IceError::InvalidRegex => "invalid stderr regex"@,
            IceError::NotReproducing => "the file doesn't seem to produce an ICE"@,
            IceError::OracleIo => "failed to run the interestingness check"@,
            IceError::ParseFailed => "failed to parse code"@,
            IceError::ReductionFailed => "failed when reducing the program"@,
            IceError::FetchFailed => "failed to retrieve issue"@,
            IceError::MalformedIssue => "malformed issue payload"@,
            IceError::IssueNumberTooLarge => "couldn't extract number from issue reference"@,
        }
    }
}

} // verus!
