use vstd::prelude::*;
use crate::error::{AppError, AppResult};
use crate::user::{PublicUser, User};

verus! {

/// A store operation that failed. It carries no text: what the store reported
/// stays in the server log and never reaches a client.
#[derive(Debug, Clone, Copy, PartialEq, Eq, Structural)]
pub struct StoreError;

/// Why inserting a user failed.
#[derive(Debug, Clone, Copy, PartialEq, Eq, Structural)]
pub enum InsertError {
    /// The store's uniqueness constraint on emails refused the row.
    EmailTaken,
    /// Any other store failure.
    Store,
}

/// `r` is an internal error carrying exactly the message `m`.
pub open spec fn internal_error<T>(r: AppResult<T>, m: Seq<char>) -> bool {
    r matches Err(AppError::Internal(s)) && s@ == m
}

/// `r` is an authentication failure carrying exactly the message `m`.
pub open spec fn auth_error<T>(r: AppResult<T>, m: Seq<char>) -> bool {
    r matches Err(AppError::Auth(s)) && s@ == m
}

/// `r` is a not-found error carrying exactly the message `m`.
pub open spec fn not_found_error<T>(r: AppResult<T>, m: Seq<char>) -> bool {
    r matches Err(AppError::NotFound(s)) && s@ == m
}

/// An internal error with the message `m`.
pub(crate) fn internal<T>(m: &str) -> (r: AppResult<T>)
    ensures
        internal_error(r, m@),
{
    Err(AppError::Internal(String::from_str(m)))
}

/// An authentication failure with the message `m`.
pub(crate) fn auth<T>(m: &str) -> (r: AppResult<T>)
    ensures
        auth_error(r, m@),
{
    Err(AppError::Auth(String::from_str(m)))
}

/// The verdict on an email from the number of users that already hold it.
pub fn is_email_unique(count: Result<i64, StoreError>) -> (r: AppResult<()>)
    ensures
        count is Err ==> internal_error(r, "Failed to check email uniqueness"@),
        count == Ok::<i64, StoreError>(0) ==> r is Ok,
        count matches Ok(n) && n != 0 ==> auth_error(r, "Email is already taken"@),
{
    match count {
        Err(_) => internal("Failed to check email uniqueness"),
        Ok(0) => Ok(()),
        Ok(_) => auth("Email is already taken"),
    }
}

/// `r` is what a lookup of one user that came back as `found` resolves to:
/// the user, not found, or a store failure.
pub open spec fn lookup_result(found: Result<Option<User>, StoreError>, r: AppResult<User>) -> bool {
    match found {
        Ok(Some(u)) => r == Ok::<User, AppError>(u),
        Ok(None) => not_found_error(r, "User not found"@),
        Err(_) => internal_error(r, "Error fetching user"@),
    }
}

/// `r` is the public projection of what the lookup `found` resolves to.
pub open spec fn public_lookup_result(found: Result<Option<User>, StoreError>, r: AppResult<PublicUser>) -> bool {
    match found {
        Ok(Some(u)) => r matches Ok(p) && p.projects(&u),
        Ok(None) => not_found_error(r, "User not found"@),
        Err(_) => internal_error(r, "Error fetching user"@),
    }
}

fn found_user(found: Result<Option<User>, StoreError>) -> (r: AppResult<User>)
    ensures
        lookup_result(found, r),
{
    match found {
        Ok(Some(u)) => Ok(u),
        Ok(None) => Err(AppError::NotFound(String::from_str("User not found"))),
        Err(_) => internal("Error fetching user"),
    }
}

fn found_public_user(found: Result<Option<User>, StoreError>) -> (r: AppResult<PublicUser>)
    ensures
        public_lookup_result(found, r),
{
    match found_user(found) {
        Ok(u) => Ok(PublicUser::from(&u)),
        Err(e) => Err(e),
    }
}

/// Resolves the lookup of a user by id.
pub fn fetch_user_by_uuid(found: Result<Option<User>, StoreError>) -> (r: AppResult<User>)
    ensures
        lookup_result(found, r),
{
    found_user(found)
}

/// Resolves the lookup of a user by email.
pub fn fetch_user_by_email(found: Result<Option<User>, StoreError>) -> (r: AppResult<User>)
    ensures
        lookup_result(found, r),
{
    found_user(found)
}

/// Resolves the lookup of a user by id to what a client may see of it.
pub fn fetch_and_map_by_uuid(found: Result<Option<User>, StoreError>) -> (r: AppResult<PublicUser>)
    ensures
        public_lookup_result(found, r),
{
    found_public_user(found)
}

/// Resolves the lookup of a user by email to what a client may see of it.
pub fn fetch_and_map_by_email(found: Result<Option<User>, StoreError>) -> (r: AppResult<PublicUser>)
    ensures
        public_lookup_result(found, r),
{
    found_public_user(found)
}

/// The verdict on deleting a user. Deleting is idempotent: removing no row
/// is no failure.
pub fn delete_user_by_uuid(outcome: Result<u64, StoreError>) -> (r: AppResult<()>)
    ensures
        outcome is Ok <==> r is Ok,
        outcome is Err ==> internal_error(r, "Failed to delete user"@),
{
    match outcome {
        Ok(_) => Ok(()),
        Err(_) => internal("Failed to delete user"),
    }
}

/// The verdict on storing a user's new password hash.
pub fn update_user_password(outcome: Result<u64, StoreError>) -> (r: AppResult<()>)
    ensures
        outcome is Ok <==> r is Ok,
        outcome is Err ==> internal_error(r, "Failed to update password"@),
{
    match outcome {
        Ok(_) => Ok(()),
        Err(_) => internal("Failed to update password"),
    }
}

} // verus!
