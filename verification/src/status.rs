//! The statuses that the server answers with. Every response has an empty body.

use vstd::prelude::*;

verus! {

/// The status of a response.
#[derive(Clone, Copy, Debug, PartialEq, Eq, Structural)]
pub enum Status {
    /// The hook was started.
    Success,
    /// The signature header is malformed.
    BadRequest,
    /// The hook wants a signature and the request carries none.
    Unauthorized,
    /// No hook answers to the request's path.
    NotFound,
    /// The signature header names an algorithm that is not supported.
    NotAcceptable,
    /// The hook's process could not be started.
    InternalServerError,
}

impl Status {
    /// The status code as HTTP numbers it.
    pub open spec fn number(self) -> u16 {
        match self {
            Status::Success => 200,
            Status::BadRequest => 400,
            Status::Unauthorized => 401,
            Status::NotFound => 404,
            Status::NotAcceptable => 406,
            Status::InternalServerError => 500,
        }
    }

    /// The status code as HTTP numbers it.
    pub fn code(&self) -> (code: u16)
        ensures
            code == self.number(),
    {
        match self {
            Status::Success => 200,
            Status::BadRequest => 400,
            Status::Unauthorized => 401,
            Status::NotFound => 404,
            Status::NotAcceptable => 406,
            Status::InternalServerError => 500,
        }
    }
}

} // verus!
