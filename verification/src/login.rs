//! The decision a login comes down to.

use vstd::prelude::*;
use crate::auth::{password_matches, verify_password};
use crate::models::{LoginRequest, User};

verus! {

/// Whether a login is to be let in, given the record that the store holds
/// under the name in `request`, if it holds one.
pub open spec fn login_accepted(request: &LoginRequest, user: Option<&User>) -> bool {
    match user {
        Some(u) => password_matches(request.password@, u.password@),
        None => false,
    }
}

/// Decides a login. An unknown user and a wrong password give the same
/// refusal.
pub fn authenticate(request: &LoginRequest, user: Option<&User>) -> (accepted: bool)
    ensures
        accepted == login_accepted(request, user),
{
    match user {
        Some(u) => verify_password(request.password.as_str(), u.password.as_str()),
        None => false,
    }
}

} // verus!
