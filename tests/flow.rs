use auth_backend::error::AppError;
use auth_backend::response::ApiResponse;
use auth_backend::service::{
    delete_user_by_uuid, fetch_and_map_by_email, fetch_and_map_by_uuid, fetch_user_by_email, fetch_user_by_uuid,
    is_email_unique, update_user_password, InsertError, StoreError,
};
use auth_backend::token::{validate_jwt, AuthUser};
use auth_backend::user::{ChangePasswordPayload, RegisterPayload, UpdateUserPayload, User, UserId};
use auth_backend::workflow::{
    change_password, finish_signup, finish_update, login, signup, update_user, AuthResponse,
};

const SECRET: &str = "flow-secret";
const NOW: u64 = 1_700_000_000;

/// A store that keeps users in memory and enforces unique emails.
struct Store {
    users: Vec<User>,
    next_id: u128,
}

impl Store {
    fn new() -> Store {
        Store { users: Vec::new(), next_id: 1 }
    }

    fn insert(&mut self, email: String, password_hash: String) -> Result<User, InsertError> {
        if self.users.iter().any(|u| u.email == email) {
            return Err(InsertError::EmailTaken);
        }
        let user = User { id: UserId(self.next_id), email, password_hash, created_at: 5 };
        self.next_id += 1;
        self.users.push(user.clone());
        Ok(user)
    }

    fn by_email(&self, email: &str) -> Result<Option<User>, StoreError> {
        Ok(self.users.iter().find(|u| u.email == email).cloned())
    }

    fn by_id(&self, id: UserId) -> Result<Option<User>, StoreError> {
        Ok(self.users.iter().find(|u| u.id == id).cloned())
    }

    fn set_hash(&mut self, id: UserId, hash: String) -> Result<u64, StoreError> {
        let mut n = 0;
        for u in self.users.iter_mut().filter(|u| u.id == id) {
            u.password_hash = hash.clone();
            n += 1;
        }
        Ok(n)
    }

    fn rows_with_email(&self, email: &str) -> usize {
        self.users.iter().filter(|u| u.email == email).count()
    }
}

fn creds(email: &str, password: &str) -> RegisterPayload {
    RegisterPayload { email: email.into(), password: password.into() }
}

fn do_signup(store: &mut Store, email: &str, password: &str) -> ApiResponse<AuthResponse> {
    let result = signup(&creds(email, password))
        .and_then(|row| finish_signup(store.insert(row.email, row.password_hash), SECRET, NOW));
    ApiResponse::from_result(result, 201)
}

fn do_login(store: &Store, email: &str, password: &str) -> ApiResponse<AuthResponse> {
    let found = store.by_email(email);
    ApiResponse::from_result(login(&creds(email, password), found, SECRET, NOW), 200)
}

fn do_change(store: &mut Store, acting: AuthUser, old: &str, new: &str) -> ApiResponse<()> {
    let payload = ChangePasswordPayload { old_password: old.into(), new_password: new.into() };
    let found = store.by_id(acting.0);
    let result = change_password(acting, &payload, found)
        .and_then(|up| update_user_password(store.set_hash(up.id, up.password_hash)));
    ApiResponse::from_result(result, 204)
}

#[test]
fn end_to_end_signup_login_and_password_change() {
    let mut store = Store::new();
    let signed_up = do_signup(&mut store, "a@b.com", "Valid1Password");
    assert_eq!(signed_up.status, 201);
    let body = signed_up.data.unwrap();
    assert!(!body.token.is_empty());
    assert_eq!(body.user.email, "a@b.com");
    let id = body.user.id;
    assert_eq!(validate_jwt(&body.token, SECRET, NOW).unwrap().sub, id);

    let logged_in = do_login(&store, "a@b.com", "Valid1Password");
    assert_eq!(logged_in.status, 200);
    assert_eq!(logged_in.data.unwrap().user.id, id);

    let wrong = do_login(&store, "a@b.com", "Wrong1Password");
    assert_eq!(wrong.status, 401);
    assert_eq!(wrong.error, Some("Authentication failed: Invalid credentials".to_string()));

    let changed = do_change(&mut store, AuthUser(id), "Valid1Password", "Valid2Password");
    assert_eq!(changed.status, 204);
    assert!(changed.error.is_none());

    assert_eq!(do_login(&store, "a@b.com", "Valid1Password").status, 401);
    let again = do_login(&store, "a@b.com", "Valid2Password");
    assert_eq!(again.status, 200);
    assert_eq!(again.data.unwrap().user.id, id);
}

#[test]
fn signup_with_used_email_is_refused_and_keeps_one_row() {
    let mut store = Store::new();
    assert_eq!(do_signup(&mut store, "test@example.com", "SecurePassword123").status, 201);
    let second = do_signup(&mut store, "test@example.com", "SecurePassword123");
    assert_eq!(second.status, 401);
    assert_eq!(second.error, Some("Authentication failed: Email is already taken".to_string()));
    assert_eq!(store.rows_with_email("test@example.com"), 1);
}

#[test]
fn signup_with_weak_password_is_a_bad_request() {
    let mut store = Store::new();
    let resp = do_signup(&mut store, "test@example.com", "short");
    assert_eq!(resp.status, 400);
    assert_eq!(store.users.len(), 0);
}

#[test]
fn signup_store_failure_is_internal() {
    let r = finish_signup(Err(InsertError::Store), SECRET, NOW);
    assert_eq!(r.err(), Some(AppError::Internal("Failed to create user".into())));
}

#[test]
fn login_unknown_email_matches_wrong_password() {
    let mut store = Store::new();
    do_signup(&mut store, "test@example.com", "CorrectPassword123");
    let unknown = do_login(&store, "nobody@example.com", "CorrectPassword123");
    let wrong = do_login(&store, "test@example.com", "WrongPassword123");
    assert_eq!(unknown.status, 401);
    assert_eq!(unknown.error, wrong.error);
}

#[test]
fn login_store_failure_and_malformed_hash() {
    let r = login(&creds("a@b.com", "Valid1Password"), Err(StoreError), SECRET, NOW);
    assert_eq!(r.err(), Some(AppError::Internal("Error fetching user".into())));
    let broken = User { id: UserId(9), email: "a@b.com".into(), password_hash: "garbage".into(), created_at: 0 };
    let r = login(&creds("a@b.com", "Valid1Password"), Ok(Some(broken)), SECRET, NOW);
    assert_eq!(r.err(), Some(AppError::Internal("Stored password hash is malformed".into())));
}

#[test]
fn change_password_refusals() {
    let mut store = Store::new();
    let id = do_signup(&mut store, "a@b.com", "Valid1Password").data.unwrap().user.id;
    let payload = ChangePasswordPayload { old_password: "Wrong1Password".into(), new_password: "Valid2Password".into() };
    let r = change_password(AuthUser(id), &payload, store.by_id(id));
    assert_eq!(r.err(), Some(AppError::Auth("Current password is incorrect".into())));

    let weak = ChangePasswordPayload { old_password: "Valid1Password".into(), new_password: "weak".into() };
    let r = change_password(AuthUser(id), &weak, store.by_id(id));
    assert_eq!(r.err(), Some(AppError::BadRequest("Password must be at least 8 characters long".into())));

    let good = ChangePasswordPayload { old_password: "Valid1Password".into(), new_password: "Valid2Password".into() };
    let r = change_password(AuthUser(UserId(77)), &good, store.by_id(UserId(77)));
    assert_eq!(r.err(), Some(AppError::NotFound("User not found".into())));

    let broken = User { id, email: "a@b.com".into(), password_hash: "garbage".into(), created_at: 0 };
    let r = change_password(AuthUser(id), &good, Ok(Some(broken)));
    assert_eq!(r.err(), Some(AppError::Internal("Stored password hash is malformed".into())));

    let r = change_password(AuthUser(id), &good, store.by_id(id)).unwrap();
    assert_eq!(r.id, id);
    assert_ne!(r.password_hash, "Valid2Password");
}

#[test]
fn lookups_resolve_store_outcomes() {
    let user = User { id: UserId(3), email: "c@d.com".into(), password_hash: "h".into(), created_at: 11 };
    assert_eq!(fetch_user_by_uuid(Ok(Some(user.clone()))).unwrap().email, "c@d.com");
    assert_eq!(fetch_user_by_email(Ok(None)).err(), Some(AppError::NotFound("User not found".into())));
    assert_eq!(fetch_user_by_uuid(Err(StoreError)).err(), Some(AppError::Internal("Error fetching user".into())));
    let public = fetch_and_map_by_uuid(Ok(Some(user.clone()))).unwrap();
    assert_eq!((public.id, public.email.as_str(), public.created_at), (UserId(3), "c@d.com", 11));
    assert!(fetch_and_map_by_email(Ok(None)).is_err());
    assert!(is_email_unique(Ok(0)).is_ok());
    assert_eq!(is_email_unique(Ok(1)).err(), Some(AppError::Auth("Email is already taken".into())));
    assert!(is_email_unique(Err(StoreError)).is_err());
    assert!(delete_user_by_uuid(Ok(0)).is_ok());
    assert_eq!(delete_user_by_uuid(Err(StoreError)).err(), Some(AppError::Internal("Failed to delete user".into())));
    assert_eq!(update_user_password(Err(StoreError)).err(), Some(AppError::Internal("Failed to update password".into())));
}

#[test]
fn partial_update_plans() {
    let only_email = UpdateUserPayload { email: Some("new@b.com".into()), password: None };
    let plan = update_user(&only_email).unwrap();
    assert_eq!(plan.email, Some("new@b.com".to_string()));
    assert!(plan.password_hash.is_none());

    let weak = UpdateUserPayload { email: None, password: Some("weak".into()) };
    assert!(matches!(update_user(&weak), Err(AppError::BadRequest(_))));

    let strong = UpdateUserPayload { email: None, password: Some("Valid3Password".into()) };
    let plan = update_user(&strong).unwrap();
    let hash = plan.password_hash.unwrap();
    assert_eq!(auth_backend::hash::verify_password("Valid3Password", &hash), Ok(true));

    assert!(finish_update(Ok(1)).is_ok());
    assert_eq!(finish_update(Err(InsertError::EmailTaken)).err(), Some(AppError::Auth("Email is already taken".into())));
    assert_eq!(finish_update(Err(InsertError::Store)).err(), Some(AppError::Internal("Failed to update user".into())));
}
