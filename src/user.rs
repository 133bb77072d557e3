use vstd::prelude::*;

verus! {

/// A user's identifier: the 128 bits of the UUID that the store generated for
/// the user at creation.
#[derive(Debug, Clone, Copy, PartialEq, Eq, Structural)]
pub struct UserId(pub u128);

/// A stored user. `password_hash` is a self-describing password hash and
/// never leaves the service; `created_at` counts microseconds since the Unix
/// epoch, UTC.
#[derive(Debug, Clone)]
pub struct User {
    pub id: UserId,
    pub email: String,
    pub password_hash: String,
    pub created_at: i64,
}

/// The part of a user that may be shown to a client: everything but the
/// password hash.
#[derive(Debug, Clone)]
pub struct PublicUser {
    pub id: UserId,
    pub email: String,
    pub created_at: i64,
}

impl PublicUser {
    /// `self` is the public projection of `user`.
    pub open spec fn projects(&self, user: &User) -> bool {
        &&& self.id == user.id
        &&& self.email@ == user.email@
        &&& self.created_at == user.created_at
    }
}

impl<'a> From<&'a User> for PublicUser {
    fn from(user: &'a User) -> (r: PublicUser) {
        PublicUser { id: user.id, email: user.email.clone(), created_at: user.created_at }
    }
}

impl<'a> vstd::std_specs::convert::FromSpecImpl<&'a User> for PublicUser {
    open spec fn obeys_from_spec() -> bool {
        true
    }

    open spec fn from_spec(user: &'a User) -> PublicUser {
        PublicUser { id: user.id, email: user.email, created_at: user.created_at }
    }
}

/// Credentials sent to sign up or to log in.
#[derive(Debug, Clone)]
pub struct RegisterPayload {
    pub email: String,
    pub password: String,
}

/// A partial update of a user: fields that are `None` are left as they are.
/// A new email must be unique; a new password must meet the password policy
/// and is hashed before it is stored.
#[derive(Debug, Clone)]
pub struct UpdateUserPayload {
    pub email: Option<String>,
    pub password: Option<String>,
}

/// A request to replace the acting user's password.
#[derive(Debug, Clone)]
pub struct ChangePasswordPayload {
    pub old_password: String,
    pub new_password: String,
}

} // verus!
