use vstd::prelude::*;
use crate::helpers::uuid::Uuid;

verus! {

/// The credentials a client logs in or registers with.
pub struct UserSerializer {
    pub id: Option<Uuid>,
    pub email: String,
    pub password: String,
}

} // verus!
