//! The ways in which a step of a run can fail.

use vstd::prelude::*;
use vstd::std_specs::convert::FromSpecImpl;

verus! {

/// `std::io::Error`, carried through as an opaque value: nothing is read
/// from it.
#[verifier::external_type_specification]
#[verifier::external_body]
pub struct ExIoError(std::io::Error);

/// Why a step failed.
#[derive(Debug, Clone, Copy, PartialEq, Eq, Structural)]
pub enum Error {
    /// The request did not complete: no reply was received.
    HttpError,
    /// A receipt could not be written to local storage.
    IoError,
    /// The provider rejected the credentials or the token.
    Unauthorized,
    /// Any other failure, a reply of an unexpected shape included.
    Unknown,
}

impl Error {
    /// The text that describes this error to a user.
    pub open spec fn spec_message(self) -> Seq<char> {
        match self {
            Error::HttpError => "HTTP error"@,
            Error::IoError => "IO error"@,
            Error::Unauthorized => "Unauthorized"@,
            Error::Unknown => "Unknown"@,
        }
    }

    /// Returns the text that describes this error to a user.
    pub fn message(&self) -> (text: String)
        ensures
            text@ == self.spec_message(),
    {
        match self {
            Error::HttpError => String::from_str("HTTP error"),
            Error::IoError => String::from_str("IO error"),
            Error::Unauthorized => String::from_str("Unauthorized"),
            Error::Unknown => String::from_str("Unknown"),
        }
    }
}

impl From<std::io::Error> for Error {
    /// Every failure of local input or output counts as a storage failure.
    fn from(_cause: std::io::Error) -> (error: Error) {
        Error::IoError
    }
}

impl FromSpecImpl<std::io::Error> for Error {
    open spec fn obeys_from_spec() -> bool {
        true
    }

    open spec fn from_spec(cause: std::io::Error) -> Error {
        Error::IoError
    }
}

} // verus!
