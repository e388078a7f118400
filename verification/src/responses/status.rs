use vstd::prelude::*;

verus! {

/// The HTTP statuses the API answers with.
#[derive(Debug, Clone, Copy, PartialEq, Eq, Structural)]
pub enum Status {
    Okay,
    Created,
    Accepted,
    NoContent,
    PartialContent,
    BadRequest,
    Unauthorized,
    Forbidden,
    NotFound,
    MethodNotAllowed,
    Conflict,
    UnprocessableEntity,
    InternalServerError,
    ServiceUnavailable,
}

/// The HTTP code of a status.
pub open spec fn status_code(s: Status) -> u16 {
    match s {
        Status::Okay => 200,
        Status::Created => 201,
        Status::Accepted => 202,
        Status::NoContent => 204,
        Status::PartialContent => 206,
        Status::BadRequest => 400,
        Status::Unauthorized => 401,
        Status::Forbidden => 403,
        Status::NotFound => 404,
        Status::MethodNotAllowed => 405,
        Status::Conflict => 409,
        Status::UnprocessableEntity => 422,
        Status::InternalServerError => 500,
        Status::ServiceUnavailable => 503,
    }
}

impl Status {
    /// The numeric HTTP status code.
    pub fn code(&self) -> (c: u16)
        ensures
            c == status_code(*self),
    {
        match self {
            Status::Okay => 200,
            Status::Created => 201,
            Status::Accepted => 202,
            Status::NoContent => 204,
            Status::PartialContent => 206,
            Status::BadRequest => 400,
            Status::Unauthorized => 401,
            Status::Forbidden => 403,
            Status::NotFound => 404,
            Status::MethodNotAllowed => 405,
            Status::Conflict => 409,
            Status::UnprocessableEntity => 422,
            Status::InternalServerError => 500,
            Status::ServiceUnavailable => 503,
        }
    }
}

} // verus!
