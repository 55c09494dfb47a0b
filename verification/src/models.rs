//! The records that a login works with.

use vstd::prelude::*;

verus! {

/// One attempt to log in: who claims to be there, and the password shown.
/// It lives for the length of one login and is never stored; it cannot be
/// printed.
pub struct LoginRequest {
    pub username: String,
    pub password: String,
}

/// A user as the store keeps it. `password` holds the hash of the user's
/// password, never the password.
#[derive(Debug, PartialEq, Eq)]
pub struct User {
    pub id: i32,
    pub username: String,
    pub password: String,
}

} // verus!
