//! Registration, login and logout for a small web service: salted password
//! hashing, session-token bookkeeping on user records, and the mapping of every
//! failure onto one of three error kinds.
//!
//! The persistent store, the token issuer and the HTTP layer live outside this
//! library; the functions here take what they produced as plain values.

pub mod error;
pub mod password;
pub mod user;
pub mod users;
