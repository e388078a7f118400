use vstd::prelude::*;
use crate::helpers::uuid::Uuid;
use crate::worker::scanner::FileTime;
use crate::models::user::UserModel;

verus! {

/// A directory of audiobooks and the pattern that picks the books in it.
pub struct Library {
    pub id: Uuid,
    pub location: String,
    pub is_audiobook_regex: String,
    pub last_scan: Option<FileTime>,
}

/// A user's access to a library.
#[derive(Debug, Clone, Copy, PartialEq, Eq, Structural)]
pub struct LibraryPermission {
    pub library_id: Uuid,
    pub user_id: Uuid,
}

impl LibraryPermission {
    /// The permission row granting `user` access to `library`.
    pub fn permit(user: &UserModel, library: &Library) -> (p: Self)
        ensures
            p.library_id == library.id,
            p.user_id == user.id,
    {
        LibraryPermission { library_id: library.id, user_id: user.id }
    }
}

} // verus!
