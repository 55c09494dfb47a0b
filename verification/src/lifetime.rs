//! The life of a token as the validator sees it, and what holds of it over
//! time.

use vstd::prelude::*;
use crate::auth::{authentic_claims, valid_claims};

verus! {

/// Where a token stands at a given time under a given secret.
pub enum TokenState {
    /// The signature is the secret's and the expiry lies ahead.
    Valid,
    /// The signature is the secret's, and the expiry has been reached.
    Expired,
    /// The secret does not vouch for the token, or its payload is not
    /// well-formed claims.
    Rejected,
}

/// The state of `token` under `secret` at the time `now`.
pub open spec fn token_state(token: Seq<char>, secret: Seq<char>, now: nat) -> TokenState {
    match authentic_claims(token, secret) {
        Some(c) => if c.exp > now {
            TokenState::Valid
        } else {
            TokenState::Expired
        },
        None => TokenState::Rejected,
    }
}

/// Validation yields claims exactly in the state `Valid`, and then the
/// claims that the token carries.
pub proof fn lemma_claims_exactly_when_valid(token: Seq<char>, secret: Seq<char>, now: nat)
    ensures
        token_state(token, secret, now) == TokenState::Valid <==> valid_claims(token, secret, now)
            is Some,
        valid_claims(token, secret, now) is Some ==> valid_claims(token, secret, now)
            == authentic_claims(token, secret),
{
}

/// A token whose expiry has been reached validates to nothing, even under
/// the secret it was signed with. The second of the expiry itself is already
/// too late.
pub proof fn lemma_expired_token_rejected(token: Seq<char>, secret: Seq<char>, now: nat)
    requires
        authentic_claims(token, secret) matches Some(c) && c.exp <= now,
    ensures
        valid_claims(token, secret, now) is None,
{
}

/// A token that the secret does not vouch for validates to nothing at any
/// time.
pub proof fn lemma_unvouched_token_rejected(token: Seq<char>, secret: Seq<char>, now: nat)
    requires
        authentic_claims(token, secret) is None,
    ensures
        valid_claims(token, secret, now) is None,
{
}

/// Time only takes validity away: a rejected token stays rejected and was
/// rejected before, an expired one stays expired, and a token valid at the
/// later time was valid at the earlier, with the same claims.
pub proof fn lemma_validity_only_lapses(
    token: Seq<char>,
    secret: Seq<char>,
    earlier: nat,
    later: nat,
)
    requires
        earlier <= later,
    ensures
        token_state(token, secret, earlier) == TokenState::Rejected <==> token_state(
            token,
            secret,
            later,
        ) == TokenState::Rejected,
        token_state(token, secret, earlier) == TokenState::Expired ==> token_state(
            token,
            secret,
            later,
        ) == TokenState::Expired,
        valid_claims(token, secret, later) is Some ==> valid_claims(token, secret, earlier)
            == valid_claims(token, secret, later),
{
}

} // verus!
