//! The decisions of the register, login and logout endpoints.
//!
//! Each endpoint alternates between work done outside this library (issuing a
//! signed token, reading or writing the user store) and decisions made here.
//! The caller performs the outside work and hands its result to the next step:
//!
//! - register: issue a token, `create_user`, insert, `user_response`;
//! - login: look the name up, `login`, issue a token, `reissue_token`, save,
//!   `user_response`;
//! - logout: `logout`, save, `logout_outcome`.
use vstd::prelude::*;
use crate::error::{ApiError, StoreError};
use crate::password::{bcrypt_verdict, hash_password, is_hash_of, verify_password, HASH_COST};
use crate::user::{
    lookup_view, new_user_result_view, response_result_view, stored_view, user_result_view,
    NewUser, NewUserView, RequestUser, RequestView, ResponseUser, ResponseView, UserRecord,
    UserView,
};

verus! {

/// The user to insert for a registration with hashed password `hashed`, or
/// a server error if hashing failed.
pub open spec fn new_user_outcome(
    username: Seq<char>,
    hashed: Result<Seq<char>, ApiError>,
    token: Seq<char>,
) -> Result<NewUserView, ApiError> {
    match hashed {
        Ok(h) => Ok(NewUserView { username, password: h, token }),
        Err(_) => Err(ApiError::ServerError),
    }
}

/// `new` is a user that a registration of `request` may insert when the issuer
/// gave `token`: same name, that token, and a fresh hash of the password at
/// the standard work factor.
pub open spec fn is_registration_of(request: RequestView, token: Seq<char>, new: NewUserView) -> bool {
    &&& new.username == request.username
    &&& new.token == token
    &&& is_hash_of(request.password, new.password, HASH_COST)
}

/// The outcome of the password check at login, given what the store's lookup
/// by name returned.
pub open spec fn login_outcome(
    request: RequestView,
    found: Result<Option<UserView>, StoreError>,
) -> Result<UserView, ApiError> {
    match found {
        Err(_) => Err(ApiError::NotFound),
        Ok(None) => Err(ApiError::NotFound),
        Ok(Some(u)) => match bcrypt_verdict(request.password, u.password) {
            None => Err(ApiError::ServerError),
            Some(false) => Err(ApiError::Unauthorized),
            Some(true) => Ok(u),
        },
    }
}

/// `user` with its session token replaced by `token`.
pub open spec fn with_token(user: UserView, token: Option<Seq<char>>) -> UserView {
    UserView { token, ..user }
}

/// The answer to the caller once the store has saved (or failed to save) a
/// user with an active session.
pub open spec fn response_outcome(saved: Result<UserView, StoreError>) -> Result<
    ResponseView,
    ApiError,
> {
    match saved {
        Ok(u) => match u.token {
            Some(t) => Ok(ResponseView { username: u.username, id: u.id, token: t }),
            None => Err(ApiError::ServerError),
        },
        Err(_) => Err(ApiError::ServerError),
    }
}

/// The record the store holds after inserting `new` under the id `id` it
/// assigned.
pub open spec fn inserted(new: NewUserView, id: i32) -> UserView {
    UserView { id, username: new.username, password: new.password, token: Some(new.token) }
}

/// Registering `request` with token `t1` and then logging in with the same
/// credentials succeeds: the login check passes on the stored record, and the
/// login answer carries the token `t2` issued at login, not the one from
/// registration, so the two answers differ whenever the issuer's tokens do.
pub proof fn lemma_register_then_login(
    request: RequestView,
    t1: Seq<char>,
    t2: Seq<char>,
    new: NewUserView,
    id: i32,
)
    requires
        is_registration_of(request, t1, new),
    ensures
        response_outcome(Ok(inserted(new, id))) == Ok::<ResponseView, ApiError>(
            ResponseView { username: request.username, id, token: t1 },
        ),
        login_outcome(request, Ok(Some(inserted(new, id)))) == Ok::<UserView, ApiError>(
            inserted(new, id),
        ),
        response_outcome(Ok(with_token(inserted(new, id), Some(t2)))) == Ok::<
            ResponseView,
            ApiError,
        >(ResponseView { username: request.username, id, token: t2 }),
        t1 != t2 ==> response_outcome(Ok(with_token(inserted(new, id), Some(t2)))) != response_outcome(
            Ok(inserted(new, id)),
        ),
{
}

/// Logging in as a registered user with a password that bcrypt rejects for
/// the stored hash fails as unauthorized, not as not-found.
pub proof fn lemma_wrong_password_unauthorized(
    registered: RequestView,
    token: Seq<char>,
    new: NewUserView,
    id: i32,
    attempt: RequestView,
)
    requires
        is_registration_of(registered, token, new),
        attempt.username == registered.username,
        attempt.password != registered.password,
        bcrypt_verdict(attempt.password, new.password) == Some(false),
    ensures
        login_outcome(attempt, Ok(Some(inserted(new, id)))) == Err::<UserView, ApiError>(
            ApiError::Unauthorized,
        ),
{
}

/// The user to insert: `username`, the outcome of hashing the password, and
/// the freshly issued `token`.
pub fn new_user(username: String, hashed: Result<String, ApiError>, token: String) -> (r: Result<
    NewUser,
    ApiError,
>)
    ensures
        new_user_result_view(r) == new_user_outcome(
            username@,
            match hashed {
                Ok(h) => Ok(h@),
                Err(e) => Err(e),
            },
            token@,
        ),
{
    match hashed {
        Ok(password) => Ok(NewUser { username, password, token }),
        Err(_) => Err(ApiError::ServerError),
    }
}

/// Registration up to the insert: with the token that the issuer gave
/// (`None` if signing failed), hashes the password and builds the new user.
///
/// No check for an existing user of the same name is made.
pub fn create_user(request: RequestUser, issued_token: Option<String>) -> (r: Result<
    NewUser,
    ApiError,
>)
    ensures
        issued_token is None ==> r == Err::<NewUser, ApiError>(ApiError::ServerError),
        issued_token matches Some(t) ==> match r {
            Ok(new) => is_registration_of(request@, t@, new@),
            Err(e) => e == ApiError::ServerError,
        },
{
    match issued_token {
        None => Err(ApiError::ServerError),
        Some(token) => {
            let hashed = hash_password(request.password);
            new_user(request.username, hashed, token)
        },
    }
}

/// The login check: given what the lookup of `request.username` returned,
/// yields the user whose password matched.
///
/// A failed lookup and a missing user are both `NotFound`; a wrong password
/// is `Unauthorized`; a stored hash that bcrypt refuses is `ServerError`.
pub fn login(request: RequestUser, found: Result<Option<UserRecord>, StoreError>) -> (r: Result<
    UserRecord,
    ApiError,
>)
    ensures
        user_result_view(r) == login_outcome(request@, lookup_view(found)),
        found matches Ok(None) ==> r is Err && r->Err_0 == ApiError::NotFound,
{
    match found {
        Err(_) => Err(ApiError::NotFound),
        Ok(None) => Err(ApiError::NotFound),
        Ok(Some(user)) => {
            match verify_password(request.password, user.password.as_str()) {
                Err(e) => Err(e),
                Ok(false) => Err(ApiError::Unauthorized),
                Ok(true) => Ok(user),
            }
        },
    }
}

/// Gives an authenticated `user` the token that the issuer just gave (`None`
/// if signing failed), replacing any earlier one.
pub fn reissue_token(user: UserRecord, issued_token: Option<String>) -> (r: Result<
    UserRecord,
    ApiError,
>)
    ensures
        match issued_token {
            Some(t) => r is Ok && r->Ok_0@ == with_token(user@, Some(t@)),
            None => r is Err && r->Err_0 == ApiError::ServerError,
        },
{
    match issued_token {
        Some(t) => Ok(UserRecord { token: Some(t), ..user }),
        None => Err(ApiError::ServerError),
    }
}

/// The answer to register or login once the store has saved the user.
pub fn user_response(saved: Result<UserRecord, StoreError>) -> (r: Result<ResponseUser, ApiError>)
    ensures
        response_result_view(r) == response_outcome(stored_view(saved)),
{
    match saved {
        Ok(user) => match user.token {
            Some(token) => Ok(ResponseUser { username: user.username, id: user.id, token }),
            None => Err(ApiError::ServerError),
        },
        Err(_) => Err(ApiError::ServerError),
    }
}

/// Ends the session of an authenticated `user`: the record to save has no
/// token and is otherwise unchanged.
pub fn logout(user: UserRecord) -> (r: UserRecord)
    ensures
        r@ == with_token(user@, None),
        r@.token is None,
{
    UserRecord { token: None, ..user }
}

/// The answer to logout once the store has saved the cleared record.
pub fn logout_outcome(saved: Result<UserRecord, StoreError>) -> (r: Result<(), ApiError>)
    ensures
        match saved {
            Ok(_) => r is Ok,
            Err(_) => r is Err && r->Err_0 == ApiError::ServerError,
        },
{
    match saved {
        Ok(_) => Ok(()),
        Err(_) => Err(ApiError::ServerError),
    }
}

} // verus!
