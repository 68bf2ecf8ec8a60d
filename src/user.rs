//! The user record and the request and response payloads, with their
//! mathematical views.
use vstd::prelude::*;
use crate::error::{ApiError, StoreError};

verus! {

/// Credentials sent to the register and login endpoints.
pub struct RequestUser {
    pub username: String,
    pub password: String,
}

/// What register and login answer with.
pub struct ResponseUser {
    pub username: String,
    pub id: i32,
    pub token: String,
}

/// A user as the store holds it. `password` is a bcrypt hash, never the
/// plaintext; `token` is present while a session is active.
pub struct UserRecord {
    pub id: i32,
    pub username: String,
    pub password: String,
    pub token: Option<String>,
}

/// A user about to be inserted: the store assigns the id.
pub struct NewUser {
    pub username: String,
    pub password: String,
    pub token: String,
}

pub struct RequestView {
    pub username: Seq<char>,
    pub password: Seq<char>,
}

pub struct ResponseView {
    pub username: Seq<char>,
    pub id: i32,
    pub token: Seq<char>,
}

pub struct UserView {
    pub id: i32,
    pub username: Seq<char>,
    pub password: Seq<char>,
    pub token: Option<Seq<char>>,
}

pub struct NewUserView {
    pub username: Seq<char>,
    pub password: Seq<char>,
    pub token: Seq<char>,
}

pub open spec fn token_view(t: Option<String>) -> Option<Seq<char>> {
    match t {
        Some(s) => Some(s@),
        None => None,
    }
}

impl View for RequestUser {
    type V = RequestView;

    open spec fn view(&self) -> RequestView {
        RequestView { username: self.username@, password: self.password@ }
    }
}

impl View for ResponseUser {
    type V = ResponseView;

    open spec fn view(&self) -> ResponseView {
        ResponseView { username: self.username@, id: self.id, token: self.token@ }
    }
}

impl View for UserRecord {
    type V = UserView;

    open spec fn view(&self) -> UserView {
        UserView {
            id: self.id,
            username: self.username@,
            password: self.password@,
            token: token_view(self.token),
        }
    }
}

impl View for NewUser {
    type V = NewUserView;

    open spec fn view(&self) -> NewUserView {
        NewUserView { username: self.username@, password: self.password@, token: self.token@ }
    }
}

/// A store answer carrying a user, seen through the views.
pub open spec fn stored_view(r: Result<UserRecord, StoreError>) -> Result<UserView, StoreError> {
    match r {
        Ok(u) => Ok(u@),
        Err(e) => Err(e),
    }
}

/// A store lookup, seen through the views.
pub open spec fn lookup_view(r: Result<Option<UserRecord>, StoreError>) -> Result<
    Option<UserView>,
    StoreError,
> {
    match r {
        Ok(Some(u)) => Ok(Some(u@)),
        Ok(None) => Ok(None),
        Err(e) => Err(e),
    }
}

pub open spec fn user_result_view(r: Result<UserRecord, ApiError>) -> Result<UserView, ApiError> {
    match r {
        Ok(u) => Ok(u@),
        Err(e) => Err(e),
    }
}

pub open spec fn new_user_result_view(r: Result<NewUser, ApiError>) -> Result<NewUserView, ApiError> {
    match r {
        Ok(u) => Ok(u@),
        Err(e) => Err(e),
    }
}

pub open spec fn response_result_view(r: Result<ResponseUser, ApiError>) -> Result<
    ResponseView,
    ApiError,
> {
    match r {
        Ok(u) => Ok(u@),
        Err(e) => Err(e),
    }
}

} // verus!
