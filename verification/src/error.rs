//! The error type reported to the embedding host.

use vstd::prelude::*;
use vstd::string::StringExecFns;

verus! {

/// Every native-platform failure during window construction is reported as a
/// `PlatformError` carrying a human-readable message.
#[derive(Clone, Debug, PartialEq)]
pub enum Error {
    PlatformError(String),
}

impl Error {
    /// The message carried by this error.
    pub open spec fn spec_message(self) -> Seq<char> {
        match self {
            Error::PlatformError(m) => m@,
        }
    }

    /// Builds a platform error from a message.
    pub fn platform(message: &str) -> (r: Error)
        ensures
            r.spec_message() == message@,
    {
        Error::PlatformError(String::from_str(message))
    }

    /// The message carried by this error.
    pub fn message(&self) -> (r: &String)
        ensures
            r@ == self.spec_message(),
    {
        match self {
            Error::PlatformError(m) => m,
        }
    }
}

} // verus!
