//! The typed failure signal returned by unpacking and decoding operations.

use vstd::prelude::*;
use vstd::string::StringExecFns;

verus! {

/// What kind of failure an operation reports.
#[derive(Debug, Clone, Copy, PartialEq, Eq, Structural)]
pub enum GrammarErrorKind {
    /// The input constraint does not have the shape the operation requires.
    UnpackingError,
    /// A property-settings string does not match any recognized form.
    UnknownSettingsValue,
}

/// A grammar error: a diagnostic message together with its kind.
#[derive(Debug, Clone)]
pub struct GrammarError {
    pub details: String,
    pub kind: GrammarErrorKind,
}

impl GrammarError {
    pub fn new(details: &str, kind: GrammarErrorKind) -> (e: GrammarError)
        ensures
            e.kind == kind,
            e.details@ == details@,
    {
        GrammarError { details: String::from_str(details), kind }
    }
}

} // verus!
