use vstd::prelude::*;

verus! {

/// The failure kinds an installation run can surface.
#[derive(Debug, Clone, Copy, PartialEq, Eq, Structural)]
pub enum InstallError {
    /// Transport-level failure while fetching remote content.
    NetworkError,
    /// Malformed input: a URL or coordinate that could not be parsed.
    ParseError,
    /// A filesystem operation failed.
    IOError,
    /// Fetched or resolved content whose digest does not equal the expected one.
    HashMismatchError,
}

impl InstallError {
    /// A short human-readable description of the failure kind.
    pub fn describe(&self) -> (r: String)
        ensures
            *self is NetworkError ==> r@ == "network error while fetching"@,
            *self is ParseError ==> r@ == "malformed URL or coordinate"@,
            *self is IOError ==> r@ == "filesystem error"@,
            *self is HashMismatchError ==> r@ == "content digest does not match the expected hash"@,
    {
        match self {
            InstallError::NetworkError => String::from_str("network error while fetching"),
            InstallError::ParseError => String::from_str("malformed URL or coordinate"),
            InstallError::IOError => String::from_str("filesystem error"),
            InstallError::HashMismatchError => String::from_str(
                "content digest does not match the expected hash",
            ),
        }
    }
}

} // verus!
