//! The error of a static file that could not be had.

use vstd::prelude::*;

verus! {

/// A static file of a contract could not be downloaded; the message says
/// which.
#[derive(Debug, PartialEq, Eq)]
pub struct StaticFileDownloadError(pub String);

impl StaticFileDownloadError {
    pub fn new(message: &str) -> (error: StaticFileDownloadError)
        ensures
            error.0@ == message@,
    {
        StaticFileDownloadError(String::from_str(message))
    }

    /// The text shown for this error.
    pub fn to_string(&self) -> (text: String)
        ensures
            text@ == "Failed to download file: "@ + self.0@,
    {
        String::from_str("Failed to download file: ").concat(self.0.as_str())
    }
}

} // verus!
