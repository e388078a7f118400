use vstd::prelude::*;
use crate::responses::status::Status;
use crate::responses::success_response::APIResponse;
use crate::text::opt_string_text;
use crate::responses::error_response::APIError;

verus! {

pub fn ok() -> (r: APIResponse)
    ensures
        r.status == Status::Okay,
        opt_string_text(r.message) == Some("Ok"@),
        r.data is None,
{
    APIResponse { message: Some("Ok".to_owned()), data: None, status: Status::Okay }
}

pub fn created() -> (r: APIResponse)
    ensures
        r.status == Status::Created,
        opt_string_text(r.message) == Some("Created"@),
        r.data is None,
{
    APIResponse { message: Some("Created".to_owned()), data: None, status: Status::Created }
}

pub fn accepted() -> (r: APIResponse)
    ensures
        r.status == Status::Accepted,
        opt_string_text(r.message) == Some("Accepted"@),
        r.data is None,
{
    APIResponse { message: Some("Accepted".to_owned()), data: None, status: Status::Accepted }
}

pub fn no_content() -> (r: APIError)
    ensures
        r.status == Status::NoContent,
        opt_string_text(r.message) == Some("No Content"@),
        r.error is None,
{
    APIError::new(Status::NoContent).message("No Content")
}

pub fn bad_request() -> (r: APIError)
    ensures
        r.status == Status::BadRequest,
        opt_string_text(r.message) == Some("Bad Request"@),
        r.error is None,
{
    APIError::new(Status::BadRequest).message("Bad Request")
}

pub fn unauthorized() -> (r: APIError)
    ensures
        r.status == Status::Unauthorized,
        opt_string_text(r.message) == Some("Unauthorized"@),
        r.error is None,
{
    APIError::new(Status::Unauthorized).message("Unauthorized")
}

pub fn forbidden() -> (r: APIError)
    ensures
        r.status == Status::Forbidden,
        opt_string_text(r.message) == Some("Forbidden"@),
        r.error is None,
{
    APIError::new(Status::Forbidden).message("Forbidden")
}

pub fn not_found() -> (r: APIError)
    ensures
        r.status == Status::NotFound,
        opt_string_text(r.message) == Some("Not Found"@),
        r.error is None,
{
    APIError::new(Status::NotFound).message("Not Found")
}

pub fn method_not_allowed() -> (r: APIResponse)
    ensures
        r.status == Status::MethodNotAllowed,
        opt_string_text(r.message) == Some("Method Not Allowed"@),
        r.data is None,
{
    APIResponse { message: Some("Method Not Allowed".to_owned()), data: None, status: Status::MethodNotAllowed }
}

pub fn conflict() -> (r: APIResponse)
    ensures
        r.status == Status::Conflict,
        opt_string_text(r.message) == Some("Conflict"@),
        r.data is None,
{
    APIResponse { message: Some("Conflict".to_owned()), data: None, status: Status::Conflict }
}

pub fn unprocessable_entity() -> (r: APIResponse)
    ensures
        r.status == Status::UnprocessableEntity,
        opt_string_text(r.message) == Some("Unprocessable Entity"@),
        r.data is None,
{
    APIResponse {
        message: Some("Unprocessable Entity".to_owned()),
        data: None,
        status: Status::UnprocessableEntity,
    }
}

pub fn internal_server_error() -> (r: APIError)
    ensures
        r.status == Status::InternalServerError,
        opt_string_text(r.message) == Some("Internal Server Error"@),
        r.error is None,
{
    APIError::new(Status::InternalServerError).message("Internal Server Error")
}

pub fn service_unavailable() -> (r: APIResponse)
    ensures
        r.status == Status::ServiceUnavailable,
        opt_string_text(r.message) == Some("Service Unavailable"@),
        r.data is None,
{
    APIResponse {
        message: Some("Service Unavailable".to_owned()),
        data: None,
        status: Status::ServiceUnavailable,
    }
}

} // verus!
