use vstd::prelude::*;

verus! {

/// A stored user account. `password` holds the PHC-encoded hash, never the
/// plaintext.
#[derive(Debug, Clone)]
pub struct User {
    pub id: i32,
    pub username: String,
    pub password: String,
    /// Creation time, in seconds since the Unix epoch.
    pub created_at: i64,
}

impl User {
    /// A field-by-field copy.
    pub fn duplicate(&self) -> (r: User)
        ensures
            r == *self,
    {
        User {
            id: self.id,
            username: self.username.clone(),
            password: self.password.clone(),
            created_at: self.created_at,
        }
    }
}

/// The fields of a user that may leave the server.
#[derive(Debug, Clone)]
pub struct PublicUser {
    pub id: i32,
    pub username: String,
    pub created_at: i64,
}

/// A login request: transient, never stored.
#[derive(Debug, Clone)]
pub struct Credentials {
    pub username: String,
    pub password: String,
}

/// The public part of a user record: everything but the password hash.
pub fn public_profile(user: &User) -> (r: PublicUser)
    ensures
        r.id == user.id,
        r.username@ == user.username@,
        r.created_at == user.created_at,
{
    PublicUser { id: user.id, username: user.username.clone(), created_at: user.created_at }
}

} // verus!
