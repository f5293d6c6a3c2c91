//! The closed set of failures that a redirect lookup can end in.

use vstd::prelude::*;

verus! {

/// Why a request did not end in a redirect.
#[derive(Clone, Copy, Debug, PartialEq, Eq, Structural)]
pub enum RedirectGetError {
    /// The store holds no usable redirect for the host.
    HostNotFound,
    /// The request carried no usable `Host` header.
    BadRequest,
    /// The store holds a record for the host, but its location is malformed.
    InvalidFormat,
    /// The store could not be read.
    UnknownError,
}

impl RedirectGetError {
    /// The HTTP status code that reports this failure.
    pub open spec fn spec_status(self) -> u16 {
        match self {
            RedirectGetError::BadRequest => 400,
            RedirectGetError::HostNotFound => 404,
            RedirectGetError::InvalidFormat => 500,
            RedirectGetError::UnknownError => 500,
        }
    }

    /// The machine-readable name of this failure.
    pub open spec fn spec_kind_name(self) -> Seq<char> {
        match self {
            RedirectGetError::HostNotFound => "HostNotFound"@,
            RedirectGetError::BadRequest => "BadRequest"@,
            RedirectGetError::InvalidFormat => "InvalidFormat"@,
            RedirectGetError::UnknownError => "UnknownError"@,
        }
    }

    /// The human-readable description of this failure.
    pub open spec fn spec_message(self) -> Seq<char> {
        match self {
            RedirectGetError::HostNotFound => "No redirect location found for the given host"@,
            RedirectGetError::BadRequest => "The request was invalid"@,
            RedirectGetError::InvalidFormat => "The redirect record is invalid"@,
            RedirectGetError::UnknownError => "An unknown error condition occurred"@,
        }
    }

    /// The HTTP status code that reports this failure: 400 for a bad
    /// request, 404 for an unknown host, 500 for everything else.
    pub fn status(&self) -> (code: u16)
        ensures
            code == self.spec_status(),
    {
        match self {
            RedirectGetError::BadRequest => 400,
            RedirectGetError::HostNotFound => 404,
            _ => 500,
        }
    }

    /// The machine-readable name of this failure, as it stands in the
    /// `type` field of an error body.
    pub fn kind_name(&self) -> (name: String)
        ensures
            name@ == self.spec_kind_name(),
    {
        match self {
            RedirectGetError::HostNotFound => "HostNotFound".to_owned(),
            RedirectGetError::BadRequest => "BadRequest".to_owned(),
            RedirectGetError::InvalidFormat => "InvalidFormat".to_owned(),
            RedirectGetError::UnknownError => "UnknownError".to_owned(),
        }
    }

    /// The human-readable description of this failure, as it stands in the
    /// `message` field of an error body.
    pub fn message(&self) -> (text: String)
        ensures
            text@ == self.spec_message(),
    {
        match self {
            RedirectGetError::HostNotFound => "No redirect location found for the given host".to_owned(),
            RedirectGetError::BadRequest => "The request was invalid".to_owned(),
            RedirectGetError::InvalidFormat => "The redirect record is invalid".to_owned(),
            RedirectGetError::UnknownError => "An unknown error condition occurred".to_owned(),
        }
    }
}

} // verus!
