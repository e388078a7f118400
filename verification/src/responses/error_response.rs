use vstd::prelude::*;
use crate::responses::status::Status;
use crate::text::opt_string_text;
use vstd::string::StringExecFns;

verus! {

/// A failed API answer: an optional message for the client, an optional
/// description of the underlying error and a status.
#[derive(Debug)]
pub struct APIError {
    pub message: Option<String>,
    pub error: Option<String>,
    pub status: Status,
}

/// The fields an `APIError` sends as its JSON body.
#[derive(Debug, PartialEq, Eq)]
pub struct ErrorBody {
    /// The `message` field, when present.
    pub message: Option<String>,
    /// Whether the `error` and `backtrace` fields are present.
    pub with_error_details: bool,
}

impl APIError {
    /// An error answer with the given status and nothing else.
    pub fn new(status: Status) -> (r: Self)
        ensures
            r.message is None,
            r.error is None,
            r.status == status,
    {
        APIError { message: None, error: None, status }
    }

    /// Change the message of the answer.
    pub fn message(self, msg: &str) -> (r: Self)
        ensures
            opt_string_text(r.message) == Some(msg@),
            opt_string_text(r.error) == opt_string_text(self.error),
            r.status == self.status,
    {
        APIError { message: Some(msg.to_owned()), error: self.error, status: self.status }
    }

    /// Attach a description of the underlying error.
    pub fn error(self, err: String) -> (r: Self)
        ensures
            opt_string_text(r.error) == Some(err@),
            opt_string_text(r.message) == opt_string_text(self.message),
            r.status == self.status,
    {
        APIError { message: self.message, error: Some(err), status: self.status }
    }

    /// The body sent: outside debug mode only the message (or an empty
    /// object); in debug mode the error and its backtrace as well.
    pub fn body(self, debug: bool) -> (b: ErrorBody)
        ensures
            opt_string_text(b.message) == opt_string_text(self.message),
            b.with_error_details == debug,
    {
        ErrorBody { message: self.message, with_error_details: debug }
    }

    /// A user (or other record) that already exists: a conflict.
    pub fn already_exists(name: &str) -> (r: Self)
        ensures
            r.status == Status::Conflict,
            opt_string_text(r.message) == Some("The "@ + name@ + " already exists"@),
            r.error is None,
    {
        let mut m = String::from_str("The ");
        m.append(name);
        m.append(" already exists");
        APIError { message: Some(m), error: None, status: Status::Conflict }
    }

    /// A database error: a missing row is "not found", anything else an
    /// internal error.
    pub fn from_query_error(row_not_found: bool) -> (r: Self)
        ensures
            r.status == (if row_not_found { Status::NotFound } else { Status::InternalServerError }),
            opt_string_text(r.message) == Some(if row_not_found { "Not Found"@ } else { "Internal Server Error"@ }),
    {
        if row_not_found {
            crate::responses::responses::not_found()
        } else {
            crate::responses::responses::internal_server_error()
        }
    }
}

} // verus!
