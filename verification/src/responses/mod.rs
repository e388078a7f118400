pub mod status;
pub mod success_response;
pub mod error_response;
pub mod responses;

pub use self::status::Status;
pub use self::success_response::APIResponse;
pub use self::error_response::APIError;
pub use self::responses::{ok, created, accepted, no_content, bad_request, unauthorized, forbidden, not_found, method_not_allowed, conflict, unprocessable_entity, internal_server_error, service_unavailable};
