//! The errors of the merge engine.

use vstd::prelude::*;

verus! {

/// Why a merge, or one step of it, failed.
#[derive(Clone, Copy, Debug, PartialEq, Eq, Structural)]
pub enum MergeError {
    /// A required anchor, such as the main module, is absent.
    NotFound,
    /// A method carries both the append and the replace directive.
    AmbiguousMergeDirective,
    /// An import uses an alias or a wildcard.
    UnsupportedImport,
    /// A directive's payload is not an assignment of an integer literal.
    MalformedAttribute,
    /// Two declarations go by one name. The engine never raises this: the
    /// later declaration shadows the earlier one.
    IdentityCollision,
}

/// Two imports could not be compared; the message says why.
#[derive(Debug, PartialEq, Eq)]
pub struct ComparisonError(pub String);

impl ComparisonError {
    pub fn new(message: &str) -> (error: ComparisonError)
        ensures
            error.0@ == message@,
    {
        ComparisonError(String::from_str(message))
    }

    /// The text shown for this error.
    pub fn to_string(&self) -> (text: String)
        ensures
            text@ == "Comparison failed: "@ + self.0@,
    {
        String::from_str("Comparison failed: ").concat(self.0.as_str())
    }
}

} // verus!
