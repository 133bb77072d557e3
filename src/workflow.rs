use vstd::prelude::*;
use crate::error::{AppError, AppResult};
use crate::hash::{hash_of, hash_password, password_check, verify_password, HashError};
use crate::service::{auth, auth_error, internal, internal_error, not_found_error, InsertError, StoreError};
use crate::token::{generate_jwt_token, token_carries, AuthUser, Claims, TOKEN_TTL_SECS};
use crate::user::{ChangePasswordPayload, PublicUser, RegisterPayload, UpdateUserPayload, User, UserId};
use crate::validation::{policy_problem, validate_password};

verus! {

/// The row that a signup asks the store to insert. Whether two emails are
/// the same is the store's call: its uniqueness constraint compares them
/// under its collation.
#[derive(Debug, Clone)]
pub struct NewUser {
    pub email: String,
    pub password_hash: String,
}

/// The new password hash that a password change asks the store to write.
#[derive(Debug, Clone)]
pub struct PasswordUpdate {
    pub id: UserId,
    pub password_hash: String,
}

/// What a successful signup or login returns: a bearer token and the user.
#[derive(Debug, Clone)]
pub struct AuthResponse {
    pub token: String,
    pub user: PublicUser,
}

/// `r` refuses a password for the policy's message `m`.
pub open spec fn refused_password<T>(r: AppResult<T>, m: Seq<char>) -> bool {
    r matches Err(AppError::BadRequest(s)) && s@ == m
}

/// `r` opens a session for `user` at `now`: it succeeds with a token that
/// names the user and expires 24 hours after `now`, and with the user's
/// public projection.
pub open spec fn session_for(r: AppResult<AuthResponse>, user: User, secret: Seq<char>, now: u64) -> bool {
    &&& r is Ok
    &&& r matches Ok(resp) ==> {
        &&& token_carries(resp.token@, secret, Claims { sub: user.id, exp: (now + TOKEN_TTL_SECS) as u64 })
        &&& resp.user.projects(&user)
    }
}

fn open_session(user: &User, secret: &str, now: u64) -> (r: AppResult<AuthResponse>)
    requires
        now <= u64::MAX - TOKEN_TTL_SECS,
    ensures
        session_for(r, *user, secret@, now),
{
    let token = generate_jwt_token(user, secret, now)?;
    Ok(AuthResponse { token, user: PublicUser::from(user) })
}

/// First step of a signup: checks the password policy and hashes the
/// password, giving the row to insert. Email uniqueness is left to the
/// store's constraint, whose verdict `finish_signup` takes.
pub fn signup(payload: &RegisterPayload) -> (r: AppResult<NewUser>)
    ensures
        match policy_problem(payload.password@) {
            Some(m) => refused_password(r, m),
            None => match r {
                Ok(n) => n.email@ == payload.email@ && hash_of(payload.password@, n.password_hash@),
                Err(_) => internal_error(r, "Failed to hash password"@),
            },
        },
{
    validate_password(payload.password.as_str())?;
    match hash_password(payload.password.as_str()) {
        Ok(h) => Ok(NewUser { email: payload.email.clone(), password_hash: h }),
        Err(_) => internal("Failed to hash password"),
    }
}

/// Last step of a signup, from the store's verdict on the insert: a session
/// for the new user, or the reason the insert was refused. An email already
/// in use is an authentication-style failure (401), never an internal one.
pub fn finish_signup(inserted: Result<User, InsertError>, secret: &str, now: u64) -> (r: AppResult<AuthResponse>)
    requires
        now <= u64::MAX - TOKEN_TTL_SECS,
    ensures
        match inserted {
            Ok(u) => session_for(r, u, secret@, now),
            Err(InsertError::EmailTaken) => auth_error(r, "Email is already taken"@),
            Err(InsertError::Store) => internal_error(r, "Failed to create user"@),
        },
        inserted == Err::<User, InsertError>(InsertError::EmailTaken) ==> (r matches Err(e) && e.spec_status() == 401),
{
    match inserted {
        Ok(u) => open_session(&u, secret, now),
        Err(InsertError::EmailTaken) => auth("Email is already taken"),
        Err(InsertError::Store) => internal("Failed to create user"),
    }
}

/// `r` is the outcome of a login that presented `password` and found `found`
/// under the presented email. An unknown email and a wrong password give the
/// same refusal, so that a client cannot probe which emails are registered.
pub open spec fn login_outcome(
    password: Seq<char>,
    found: Result<Option<User>, StoreError>,
    secret: Seq<char>,
    now: u64,
    r: AppResult<AuthResponse>,
) -> bool {
    match found {
        Err(_) => internal_error(r, "Error fetching user"@),
        Ok(None) => auth_error(r, "Invalid credentials"@),
        Ok(Some(u)) => match password_check(password, u.password_hash@) {
            Err(_) => internal_error(r, "Stored password hash is malformed"@),
            Ok(false) => auth_error(r, "Invalid credentials"@),
            Ok(true) => session_for(r, u, secret, now),
        },
    }
}

/// Logs in with the presented credentials, given the store's lookup of the
/// presented email.
pub fn login(payload: &RegisterPayload, found: Result<Option<User>, StoreError>, secret: &str, now: u64) -> (r: AppResult<AuthResponse>)
    requires
        now <= u64::MAX - TOKEN_TTL_SECS,
    ensures
        login_outcome(payload.password@, found, secret@, now, r),
{
    let user = match found {
        Err(_) => {
            return internal("Error fetching user");
        },
        Ok(None) => {
            return auth("Invalid credentials");
        },
        Ok(Some(u)) => u,
    };
    match verify_password(payload.password.as_str(), user.password_hash.as_str()) {
        Err(_) => internal("Stored password hash is malformed"),
        Ok(false) => auth("Invalid credentials"),
        Ok(true) => open_session(&user, secret, now),
    }
}

/// `r` is the outcome of a password change for `acting`, asking to replace
/// `old` by `new`, where the store's lookup of the acting user gave `found`.
pub open spec fn password_change_outcome(
    acting: AuthUser,
    old: Seq<char>,
    new: Seq<char>,
    found: Result<Option<User>, StoreError>,
    r: AppResult<PasswordUpdate>,
) -> bool {
    match policy_problem(new) {
        Some(m) => refused_password(r, m),
        None => match found {
            Err(_) => internal_error(r, "Error fetching user"@),
            Ok(None) => not_found_error(r, "User not found"@),
            Ok(Some(u)) => match password_check(old, u.password_hash@) {
                Err(_) => internal_error(r, "Stored password hash is malformed"@),
                Ok(false) => auth_error(r, "Current password is incorrect"@),
                Ok(true) => match r {
                    Ok(up) => up.id == acting.0 && hash_of(new, up.password_hash@),
                    Err(_) => internal_error(r, "Failed to hash new password"@),
                },
            },
        },
    }
}

/// Decides a password change: the new password must meet the policy and the
/// old one must match the stored hash; the result is the new hash to store.
pub fn change_password(acting: AuthUser, payload: &ChangePasswordPayload, found: Result<Option<User>, StoreError>) -> (r: AppResult<PasswordUpdate>)
    ensures
        password_change_outcome(acting, payload.old_password@, payload.new_password@, found, r),
{
    validate_password(payload.new_password.as_str())?;
    let user = match found {
        Err(_) => {
            return internal("Error fetching user");
        },
        Ok(None) => {
            return Err(AppError::NotFound(String::from_str("User not found")));
        },
        Ok(Some(u)) => u,
    };
    match verify_password(payload.old_password.as_str(), user.password_hash.as_str()) {
        Err(_) => internal("Stored password hash is malformed"),
        Ok(false) => auth("Current password is incorrect"),
        Ok(true) => match hash_password(payload.new_password.as_str()) {
            Ok(h) => Ok(PasswordUpdate { id: acting.0, password_hash: h }),
            Err(_) => internal("Failed to hash new password"),
        },
    }
}

/// The fields that a partial update of a user asks the store to write, in
/// one transaction; a field that is `None` stays as it is.
#[derive(Debug, Clone)]
pub struct UserUpdate {
    pub email: Option<String>,
    pub password_hash: Option<String>,
}

/// Decides a partial update of a user: a new password must meet the policy
/// and is hashed; a new email is passed on, its uniqueness left to the
/// store's constraint.
pub fn update_user(payload: &UpdateUserPayload) -> (r: AppResult<UserUpdate>)
    ensures
        match payload.password {
            None => r matches Ok(up) && up.password_hash is None && up.email == payload.email,
            Some(p) => match policy_problem(p@) {
                Some(m) => refused_password(r, m),
                None => match r {
                    Ok(up) => up.password_hash matches Some(h) && hash_of(p@, h@) && up.email == payload.email,
                    Err(_) => internal_error(r, "Failed to hash password"@),
                },
            },
        },
{
    let password_hash = match &payload.password {
        None => None,
        Some(p) => {
            validate_password(p.as_str())?;
            match hash_password(p.as_str()) {
                Ok(h) => Some(h),
                Err(_) => {
                    return internal("Failed to hash password");
                },
            }
        },
    };
    Ok(UserUpdate { email: payload.email.clone(), password_hash })
}

/// The verdict on writing a partial update of a user: an email that another
/// user holds is refused as the signup refuses it.
pub fn finish_update(outcome: Result<u64, InsertError>) -> (r: AppResult<()>)
    ensures
        match outcome {
            Ok(_) => r is Ok,
            Err(InsertError::EmailTaken) => auth_error(r, "Email is already taken"@),
            Err(InsertError::Store) => internal_error(r, "Failed to update user"@),
        },
{
    match outcome {
        Ok(_) => Ok(()),
        Err(InsertError::EmailTaken) => auth("Email is already taken"),
        Err(InsertError::Store) => internal("Failed to update user"),
    }
}

/// A login that presents the very password that the stored hash was made of
/// (at signup, or by a later password change) succeeds: it opens a session
/// for the stored user.
pub proof fn login_with_hashed_password(
    password: Seq<char>,
    user: User,
    secret: Seq<char>,
    now: u64,
    r: AppResult<AuthResponse>,
)
    requires
        hash_of(password, user.password_hash@),
        login_outcome(password, Ok(Some(user)), secret, now, r),
    ensures
        session_for(r, user, secret, now),
        r is Ok,
{
}

/// A login whose password the stored hash does not match is refused as bad
/// credentials, with status 401 and the same message as an unknown email.
pub proof fn login_with_mismatched_password(
    password: Seq<char>,
    user: User,
    secret: Seq<char>,
    now: u64,
    r: AppResult<AuthResponse>,
)
    requires
        password_check(password, user.password_hash@) == Ok::<bool, HashError>(false),
        login_outcome(password, Ok(Some(user)), secret, now, r),
    ensures
        auth_error(r, "Invalid credentials"@),
        r matches Err(e) && e.spec_status() == 401,
        login_outcome(password, Ok(None), secret, now, r),
{
}

} // verus!
