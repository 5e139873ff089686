//! The ways in which reading a certificate can fail.

use vstd::prelude::*;

verus! {

/// A labelled field of the decoded certificate text.
#[derive(Clone, Copy, Debug, PartialEq, Eq, Structural)]
pub enum Field {
    /// The issuer's distinguished name.
    Issuer,
    /// The subject's distinguished name.
    Subject,
    /// The end of the validity period.
    NotAfter,
}

/// The decoded certificate text does not hold what the policies need.
#[derive(Clone, Copy, Debug, PartialEq, Eq, Structural)]
pub enum ParseError {
    /// No line gives the field a value.
    MissingField(Field),
    /// The end of the validity period is not a date.
    InvalidDate,
}

/// Why an analysis was given up.
#[derive(Clone, Debug, PartialEq, Eq)]
pub enum AnalysisError {
    /// The decoder could not be started. The reason is given.
    ToolSpawn(String),
    /// The decoder ended with a failure. What it printed to its error stream
    /// is given.
    ToolExit(String),
    /// The text that the decoder printed could not be read.
    Parse(ParseError),
}

} // verus!
