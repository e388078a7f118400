use vstd::prelude::*;
use vstd::string::StringSliceAdditionalSpecFns;
use crate::helpers::uuid::Uuid;
use crate::worker::scanner::FileTime;

verus! {

/// The salt all password hashes are made with.
pub open spec fn login_salt() -> Seq<char> {
    "loginsalt"@
}

/// What `argon2rs::argon2i_simple` computes for a password and a salt.
pub uninterp spec fn argon2i_hash(password: Seq<char>, salt: Seq<char>) -> Seq<u8>;

/// What `String::from_utf8_lossy` makes of a byte sequence.
pub uninterp spec fn utf8_lossy(bytes: Seq<u8>) -> Seq<char>;

/// Calls `argon2rs::argon2i_simple` (Argon2i with the crate's default
/// parameters) and copies the digest out.
/// Claimed: the result is `argon2i_hash` of the texts and has 32 bytes. The
/// function asserts a password of at most `u32::MAX` bytes and a salt of 8
/// to `u32::MAX` bytes; `requires` keeps to those (the salt's bound is put
/// in characters, which implies the one in bytes; the salt is a constant).
#[verifier::external_body]
fn argon2i_simple_hash(password: &str, salt: &str) -> (h: Vec<u8>)
    requires
        password.spec_bytes().len() <= u32::MAX,
        8 <= salt@.len(),
        4 * salt@.len() <= u32::MAX,
    ensures
        h@ == argon2i_hash(password@, salt@),
        h@.len() == 32,
{
    argon2rs::argon2i_simple(password, salt).to_vec()
}

/// Calls `String::from_utf8_lossy` and owns the result.
/// Claimed: the text is `utf8_lossy` of the bytes.
#[verifier::external_body]
fn lossy_text(bytes: &[u8]) -> (s: String)
    ensures
        s@ == utf8_lossy(bytes@),
{
    String::from_utf8_lossy(bytes).into_owned()
}

/// The stored form of a password: its Argon2i hash under the login salt,
/// read as text.
pub open spec fn password_hash_text(password: Seq<char>) -> Seq<char> {
    utf8_lossy(argon2i_hash(password, login_salt()))
}

/// A stored hash lets in a candidate password when it is the candidate's
/// stored form.
pub open spec fn verifies(stored: Seq<char>, candidate: Seq<char>) -> bool {
    stored == password_hash_text(candidate)
}

/// A registered user.
pub struct UserModel {
    pub id: Uuid,
    pub created_at: FileTime,
    pub updated_at: FileTime,
    pub email: String,
    pub password_hash: String,
}

/// The fields of a user that is being registered.
pub struct NewUser {
    pub email: String,
    pub password_hash: String,
}

/// The field of an API token that is being issued.
#[derive(Debug, Clone, Copy, PartialEq, Eq, Structural)]
pub struct NewApiToken {
    pub user_id: Uuid,
}

/// An issued API token.
#[derive(Debug, Clone, Copy, PartialEq, Eq, Structural)]
pub struct ApiToken {
    pub id: Uuid,
    pub user_id: Uuid,
    pub created_at: FileTime,
}

impl UserModel {
    /// The stored form of a new password.
    pub fn make_password_hash(new_password: &str) -> (h: String)
        requires
            new_password.spec_bytes().len() <= u32::MAX,
        ensures
            h@ == password_hash_text(new_password@),
    {
        let salt = "loginsalt";
        proof {
            reveal_strlit("loginsalt");
        }
        let digest = argon2i_simple_hash(new_password, salt);
        lossy_text(digest.as_slice())
    }

    /// The row to insert for a new user.
    pub fn new_user(email: &str, password: &str) -> (u: NewUser)
        requires
            password.spec_bytes().len() <= u32::MAX,
        ensures
            u.email@ == email@,
            u.password_hash@ == password_hash_text(password@),
    {
        NewUser { email: email.to_owned(), password_hash: Self::make_password_hash(password) }
    }

    /// Whether a candidate password is this user's.
    pub fn verify_password(&self, candidate_password: &str) -> (ok: bool)
        requires
            candidate_password.spec_bytes().len() <= u32::MAX,
        ensures
            ok == verifies(self.password_hash@, candidate_password@),
    {
        let candidate = Self::make_password_hash(candidate_password);
        crate::text::str_equal(self.password_hash.as_str(), candidate.as_str())
    }

    /// The row to insert for a new API token of this user.
    pub fn new_api_token(&self) -> (t: NewApiToken)
        ensures
            t.user_id == self.id,
    {
        NewApiToken { user_id: self.id }
    }
}

/// The stored form of a password lets that password in: what
/// `make_password_hash` stores, `verify_password` accepts for the same
/// password (both hash with the same salt).
pub proof fn lemma_password_roundtrip(password: Seq<char>)
    ensures
        verifies(password_hash_text(password), password),
{
}

} // verus!
