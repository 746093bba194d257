//! The HTTP statuses that the handlers answer with.

use vstd::prelude::*;

verus! {

#[derive(Debug, Clone, Copy, PartialEq, Eq, Structural)]
pub enum Status {
    Success,
    Created,
    NoContent,
    BadRequest,
    Unauthorized,
    NotFound,
    InternalServerError,
}

/// The numeric code of each status.
pub open spec fn status_code(s: Status) -> u16 {
    match s {
        Status::Success => 200,
        Status::Created => 201,
        Status::NoContent => 204,
        Status::BadRequest => 400,
        Status::Unauthorized => 401,
        Status::NotFound => 404,
        Status::InternalServerError => 500,
    }
}

impl Status {
    pub fn code(&self) -> (c: u16)
        ensures
            c == status_code(*self),
    {
        match self {
            Status::Success => 200,
            Status::Created => 201,
            Status::NoContent => 204,
            Status::BadRequest => 400,
            Status::Unauthorized => 401,
            Status::NotFound => 404,
            Status::InternalServerError => 500,
        }
    }
}

} // verus!
