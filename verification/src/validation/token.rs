use vstd::prelude::*;
use crate::helpers::uuid::Uuid;
use crate::models::user::ApiToken;

verus! {

/// The token handed to a client: its secret is the token's identifier.
#[derive(Debug, Clone, Copy, PartialEq, Eq, Structural)]
pub struct TokenSerializer {
    pub secret: Uuid,
}

impl From<ApiToken> for TokenSerializer {
    fn from(model: ApiToken) -> (t: Self) {
        TokenSerializer { secret: model.id }
    }
}

impl vstd::std_specs::convert::FromSpecImpl<ApiToken> for TokenSerializer {
    open spec fn obeys_from_spec() -> bool {
        true
    }

    open spec fn from_spec(model: ApiToken) -> Self {
        TokenSerializer { secret: model.id }
    }
}

} // verus!
