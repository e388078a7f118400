use vstd::prelude::*;
use crate::responses::{APIError, Status, not_found, internal_server_error};
use crate::text::opt_string_text;

verus! {

/// A book the user cannot access is answered as not found.
pub fn require_accessible(accessible: bool) -> (r: Result<(), APIError>)
    ensures
        accessible ==> r is Ok,
        !accessible ==> (r matches Err(e) && e.status == Status::NotFound),
{
    if accessible {
        Ok(())
    } else {
        Err(not_found())
    }
}

/// A cover art file that could not be opened: missing art is "not found",
/// any other failure an internal error.
pub fn cover_art_error(file_missing: bool) -> (e: APIError)
    ensures
        file_missing ==> e.status == Status::NotFound && opt_string_text(e.message) == Some("No cover art found."@),
        !file_missing ==> e.status == Status::InternalServerError,
{
    if file_missing {
        not_found().message("No cover art found.")
    } else {
        internal_server_error()
    }
}

} // verus!
