use vstd::prelude::*;
use vstd::string::StringExecFns;

verus! {

/// The environment the server runs in.
#[derive(Debug, Clone, Copy, PartialEq, Eq, Structural)]
pub enum Environment {
    Development,
    Staging,
    Production,
}

/// The secret used when none is configured in development.
pub open spec fn default_secret() -> Seq<char> {
    "secret"@
}

/// The signing secret: the configured one, or in development the default;
/// outside development a secret must be configured.
pub fn get_secret(configured: Option<&str>, environment: Environment) -> (s: String)
    requires
        configured is Some || environment == Environment::Development,
    ensures
        s@ == match configured {
            Some(c) => c@,
            None => default_secret(),
        },
{
    match configured {
        Some(c) => String::from_str(c),
        None => String::from_str("secret"),
    }
}

} // verus!
