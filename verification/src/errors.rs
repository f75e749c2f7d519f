//! Error types for command parsing and classification.

use vstd::prelude::*;

verus! {

/// The first character of the line is not one of the accepted markers.
#[derive(Debug, PartialEq, Eq)]
pub struct ParseCmdError;

/// A marker with no mapped operation kind reached classification.
#[derive(Debug, PartialEq, Eq)]
pub struct NoSpecifiedOrderKindError;

impl ParseCmdError {
    /// A human-readable description of the failure.
    pub fn message(&self) -> (r: &'static str)
        ensures
            r@ == "The first character in the command line does not match the allowed characters"@,
    {
        "The first character in the command line does not match the allowed characters"
    }
}

impl NoSpecifiedOrderKindError {
    /// A human-readable description of the failure.
    pub fn message(&self) -> (r: &'static str)
        ensures
            r@ == "There is no operation type for the specified command"@,
    {
        "There is no operation type for the specified command"
    }
}

} // verus!
