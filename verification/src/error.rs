use vstd::prelude::*;

verus! {

/// The ways in which an operation of the marketplace can be refused.
#[derive(Clone, Copy, Debug, PartialEq, Eq, Structural)]
pub enum Error {
    /// The identity that asks is not the one the operation is reserved to.
    NotAuthorized,
    /// No project is stored under the given identifier.
    ProjectNotFound,
    /// An argument is outside what the operation accepts.
    InvalidArgument,
    /// A free-text field is longer than its limit.
    StringTooLong,
}

impl Error {
    /// The numeric code under which the error is reported.
    pub open spec fn spec_code(self) -> u32 {
        match self {
            Error::NotAuthorized => 1,
            Error::ProjectNotFound => 2,
            Error::InvalidArgument => 3,
            Error::StringTooLong => 4,
        }
    }

    /// The numeric code under which the error is reported.
    #[verifier::when_used_as_spec(spec_code)]
    pub fn code(self) -> (c: u32)
        ensures
            c == self.spec_code(),
    {
        match self {
            Error::NotAuthorized => 1,
            Error::ProjectNotFound => 2,
            Error::InvalidArgument => 3,
            Error::StringTooLong => 4,
        }
    }
}

} // verus!
