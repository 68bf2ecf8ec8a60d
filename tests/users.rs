use seaorm_axum_users::error::{ApiError, StoreError};
use seaorm_axum_users::password::{hash_password, verify_password};
use seaorm_axum_users::user::{NewUser, RequestUser, UserRecord};
use seaorm_axum_users::users::{
    create_user, login, logout, logout_outcome, new_user, reissue_token, user_response,
};

fn request(username: &str, password: &str) -> RequestUser {
    RequestUser { username: username.to_string(), password: password.to_string() }
}

/// A store that holds users in insertion order and numbers them from 1.
struct MemoryStore {
    users: Vec<UserRecord>,
}

impl MemoryStore {
    fn insert(&mut self, new: NewUser) -> Result<UserRecord, StoreError> {
        let record = UserRecord {
            id: self.users.len() as i32 + 1,
            username: new.username,
            password: new.password,
            token: Some(new.token),
        };
        self.users.push(copy(&record));
        Ok(record)
    }

    fn find(&self, username: &str) -> Result<Option<UserRecord>, StoreError> {
        Ok(self.users.iter().find(|u| u.username == username).map(copy))
    }

    fn save(&mut self, user: UserRecord) -> Result<UserRecord, StoreError> {
        let slot = self.users.iter_mut().find(|u| u.id == user.id).ok_or(StoreError)?;
        *slot = copy(&user);
        Ok(user)
    }
}

fn copy(u: &UserRecord) -> UserRecord {
    UserRecord {
        id: u.id,
        username: u.username.clone(),
        password: u.password.clone(),
        token: u.token.clone(),
    }
}

#[test]
fn end_to_end_register_login_logout() {
    let mut store = MemoryStore { users: Vec::new() };

    let new = create_user(request("alice", "secret"), Some("token-a".to_string())).unwrap();
    let registered = user_response(store.insert(new)).unwrap();
    assert_eq!(registered.username, "alice");
    assert_eq!(registered.id, 1);
    assert!(!registered.token.is_empty());

    let user = login(request("alice", "secret"), store.find("alice")).unwrap();
    let user = reissue_token(user, Some("token-b".to_string())).unwrap();
    let logged_in = user_response(store.save(user)).unwrap();
    assert_eq!(logged_in.username, "alice");
    assert_eq!(logged_in.id, 1);
    assert!(!logged_in.token.is_empty());
    assert_ne!(logged_in.token, registered.token);

    let wrong = login(request("alice", "wrong"), store.find("alice"));
    assert_eq!(wrong.err(), Some(ApiError::Unauthorized));
    assert_eq!(ApiError::Unauthorized.status_code(), 401);

    let authenticated = store.find("alice").unwrap().unwrap();
    let cleared = logout(authenticated);
    assert_eq!(logout_outcome(store.save(cleared)), Ok(()));
    assert_eq!(store.users[0].token, None);
}

#[test]
fn register_then_login_reissues_token() {
    let new = create_user(request("bob", "pw"), Some("first".to_string())).unwrap();
    assert_eq!(new.username, "bob");
    assert_eq!(new.token, "first");
    let stored = UserRecord { id: 7, username: new.username, password: new.password, token: Some(new.token) };
    let user = login(request("bob", "pw"), Ok(Some(stored))).unwrap();
    assert_eq!(user.token.as_deref(), Some("first"));
    let user = reissue_token(user, Some("second".to_string())).unwrap();
    let answer = user_response(Ok(user)).unwrap();
    assert_eq!(answer.username, "bob");
    assert_eq!(answer.id, 7);
    assert_eq!(answer.token, "second");
}

#[test]
fn wrong_password_is_unauthorized() {
    let hash = hash_password("right".to_string()).unwrap();
    let stored = UserRecord { id: 1, username: "carol".to_string(), password: hash, token: None };
    let r = login(request("carol", "left"), Ok(Some(stored)));
    assert_eq!(r.err(), Some(ApiError::Unauthorized));
}

#[test]
fn unknown_user_is_not_found() {
    let r = login(request("nobody", "pw"), Ok(None));
    assert_eq!(r.err(), Some(ApiError::NotFound));
    assert_eq!(ApiError::NotFound.status_code(), 404);
}

#[test]
fn failed_lookup_is_not_found() {
    let r = login(request("dave", "pw"), Err(StoreError));
    assert_eq!(r.err(), Some(ApiError::NotFound));
}

#[test]
fn malformed_stored_hash_is_server_error() {
    let stored = UserRecord { id: 1, username: "erin".to_string(), password: "plain".to_string(), token: None };
    let r = login(request("erin", "plain"), Ok(Some(stored)));
    assert_eq!(r.err(), Some(ApiError::ServerError));
    assert_eq!(ApiError::ServerError.status_code(), 500);
}

#[test]
fn logout_clears_token_only() {
    let user = UserRecord {
        id: 3,
        username: "frank".to_string(),
        password: "$2b$14$hash".to_string(),
        token: Some("live".to_string()),
    };
    let cleared = logout(user);
    assert_eq!(cleared.token, None);
    assert_eq!(cleared.id, 3);
    assert_eq!(cleared.username, "frank");
    assert_eq!(cleared.password, "$2b$14$hash");
}

#[test]
fn logout_save_failure_is_server_error() {
    assert_eq!(logout_outcome(Err(StoreError)), Err(ApiError::ServerError));
}

#[test]
fn hashing_twice_salts_differently_and_both_verify() {
    let h1 = hash_password("secret".to_string()).unwrap();
    let h2 = hash_password("secret".to_string()).unwrap();
    assert_ne!(h1, h2);
    assert_eq!(verify_password("secret".to_string(), &h1), Ok(true));
    assert_eq!(verify_password("secret".to_string(), &h2), Ok(true));
}

#[test]
fn hash_has_bcrypt_shape_at_cost_fourteen() {
    let h = hash_password("secret".to_string()).unwrap();
    assert_ne!(h, "secret");
    assert_eq!(h.len(), 60);
    assert!(h.starts_with("$2b$14$"));
    assert_eq!(verify_password("other".to_string(), &h), Ok(false));
}

#[test]
fn verify_rejects_malformed_hash() {
    assert_eq!(verify_password("secret".to_string(), "not a hash"), Err(ApiError::ServerError));
}

#[test]
fn token_issuer_failure_is_server_error() {
    let r = create_user(request("gina", "pw"), None);
    assert_eq!(r.err().map(|e| e.status_code()), Some(500));
    let user = UserRecord { id: 1, username: "gina".to_string(), password: String::new(), token: None };
    let r = reissue_token(user, None);
    assert_eq!(r.err(), Some(ApiError::ServerError));
}

#[test]
fn new_user_keeps_fields_or_fails() {
    let ok = new_user("hal".to_string(), Ok("h".to_string()), "t".to_string()).unwrap();
    assert_eq!(ok.username, "hal");
    assert_eq!(ok.password, "h");
    assert_eq!(ok.token, "t");
    let err = new_user("hal".to_string(), Err(ApiError::ServerError), "t".to_string());
    assert_eq!(err.err(), Some(ApiError::ServerError));
}

#[test]
fn response_needs_saved_user_with_token() {
    assert_eq!(user_response(Err(StoreError)).err(), Some(ApiError::ServerError));
    let no_token = UserRecord { id: 2, username: "ivy".to_string(), password: String::new(), token: None };
    assert_eq!(user_response(Ok(no_token)).err(), Some(ApiError::ServerError));
}
