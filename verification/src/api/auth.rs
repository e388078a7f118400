use vstd::prelude::*;
use vstd::string::StringSliceAdditionalSpecFns;
use crate::helpers::uuid::Uuid;
use crate::models::user::{UserModel, verifies};
use crate::responses::{APIError, Status, unauthorized};
use crate::text::opt_string_text;

verus! {

/// The message of a refused login.
pub open spec fn login_refused_text() -> Seq<char> {
    "Username or password incorrect."@
}

/// The message of a refused registration.
pub open spec fn registration_disabled_text() -> Seq<char> {
    "Registration is disabled. Create a user via the commandline or enable user creation in the config file."@
}

/// Logging in with an email address: the user it names (if any) must
/// accept the password; the answer is that user's identifier, for whom a
/// token is then issued. Unknown users and wrong passwords get the same
/// answer.
pub fn login(user: Option<&UserModel>, password: &str) -> (r: Result<Uuid, APIError>)
    requires
        password.spec_bytes().len() <= u32::MAX,
    ensures
        match user {
            Some(u) => verifies(u.password_hash@, password@) ==> r == Ok::<Uuid, APIError>(u.id),
            None => true,
        },
        (user is None || !verifies(user.unwrap().password_hash@, password@)) ==> (r matches Err(e)
            && e.status == Status::Unauthorized && opt_string_text(e.message) == Some(login_refused_text())),
{
    match user {
        None => Err(unauthorized().message("Username or password incorrect.")),
        Some(u) => {
            if u.verify_password(password) {
                Ok(u.id)
            } else {
                Err(unauthorized().message("Username or password incorrect."))
            }
        },
    }
}

/// Registration through the API is allowed only when the configuration
/// enables it.
pub fn registration_allowed(register_web: bool) -> (r: Result<(), APIError>)
    ensures
        register_web ==> r is Ok,
        !register_web ==> (r matches Err(e) && e.status == Status::Unauthorized && opt_string_text(e.message) == Some(
            registration_disabled_text(),
        )),
{
    if register_web {
        Ok(())
    } else {
        Err(unauthorized().message(
            "Registration is disabled. Create a user via the commandline or enable user creation in the config file.",
        ))
    }
}

} // verus!
