//! Failures of the core, and the response classes they are reported as.

use vstd::prelude::*;

verus! {

/// What can go wrong while serving a request. An absent link is not among
/// these: it is an ordinary answer.
#[derive(Clone, Copy, Debug, PartialEq, Eq, Structural)]
pub enum Error {
    /// The store could not be reached, or spoke out of protocol.
    StoreUnavailable,
    /// The liveness probe was answered, but not with the canonical reply.
    InvalidResponse,
    /// A stored target cannot be carried in a redirect.
    MalformedTarget,
}

/// The response classes that the boundary answers with.
#[derive(Clone, Copy, Debug, PartialEq, Eq, Structural)]
pub enum Status {
    Success,
    MovedPermanently,
    NotFound,
    InternalServerError,
    ServiceUnavailable,
}

impl Status {
    /// The numeric code of the class.
    pub open spec fn spec_code(self) -> u16 {
        match self {
            Status::Success => 200,
            Status::MovedPermanently => 301,
            Status::NotFound => 404,
            Status::InternalServerError => 500,
            Status::ServiceUnavailable => 503,
        }
    }

    /// The numeric code of the class.
    #[verifier::when_used_as_spec(spec_code)]
    pub fn code(self) -> (c: u16)
        ensures
            c == self.spec_code(),
    {
        match self {
            Status::Success => 200,
            Status::MovedPermanently => 301,
            Status::NotFound => 404,
            Status::InternalServerError => 500,
            Status::ServiceUnavailable => 503,
        }
    }
}

/// Reports any failure as a generic server-side error, keeping its detail
/// from the caller.
pub trait InternalErrExt<T> {
    fn map_internal_err(self) -> Result<T, Status>;
}

impl<T, E> InternalErrExt<T> for Result<T, E> {
    fn map_internal_err(self) -> (r: Result<T, Status>)
        ensures
            match self {
                Ok(value) => r == Ok::<T, Status>(value),
                Err(_) => r == Err::<T, Status>(Status::InternalServerError),
            },
    {
        match self {
            Ok(value) => Ok(value),
            Err(_) => Err(Status::InternalServerError),
        }
    }
}

} // verus!
