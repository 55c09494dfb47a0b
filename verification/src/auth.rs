//! Passwords and bearer tokens.

use vstd::prelude::*;
use crate::clock::unix_time;
use crate::hashing::{bcrypt_hash, bcrypt_verdict, bcrypt_verify, is_formatted_hash};
use crate::signing::{decode_verified, encode_signed, has_three_segments, signed_token, verified_claims};

verus! {

/// Why a credential or a token could not be produced.
#[derive(Debug, Clone, Copy, PartialEq, Eq, Structural)]
pub enum AuthError {
    /// The hashing backend failed: no randomness for the salt.
    HashingUnavailable,
    /// The system clock reads earlier than the Unix epoch.
    ClockBeforeEpoch,
    /// A token was asked for that would live for zero seconds.
    ZeroLifetime,
    /// Issue time plus lifetime does not fit the expiry field.
    ExpiryOutOfRange,
    /// The signing backend failed.
    SigningFailed,
}

/// Name of the payload entry that holds the subject.
pub const SUBJECT_CLAIM: &'static str = "sub";

/// Name of the payload entry that holds the expiry.
pub const EXPIRY_CLAIM: &'static str = "exp";

/// Lifetime of a token where the caller names none: one hour.
pub const TOKEN_TTL_SECONDS: u64 = 3600;

/// What a token asserts: who it was issued to, and the second, counted from
/// the Unix epoch, from which it no longer holds.
#[derive(Debug, Clone, PartialEq, Eq)]
pub struct Claims {
    pub sub: String,
    pub exp: usize,
}

/// The mathematical content of `Claims`.
pub struct ClaimsView {
    pub sub: Seq<char>,
    pub exp: nat,
}

impl View for Claims {
    type V = ClaimsView;

    open spec fn view(&self) -> ClaimsView {
        ClaimsView { sub: self.sub@, exp: self.exp as nat }
    }
}

impl DeepView for Claims {
    type V = ClaimsView;

    open spec fn deep_view(&self) -> ClaimsView {
        self@
    }
}

/// Whether `password` is the one that `hash` was made from, as far as the
/// hashing backend can tell. Anything but a clean "equal" counts as a
/// mismatch: a wrong password and a malformed hash are not told apart.
pub open spec fn password_matches(password: Seq<char>, hash: Seq<char>) -> bool {
    bcrypt_verdict(password, hash) == Some(true)
}

/// Collapses the backend's answer to a yes or no: only `Ok(true)` is a yes.
pub fn verdict_accepts(outcome: Result<bool, bcrypt::BcryptError>) -> (accepted: bool)
    ensures
        accepted <==> outcome == Ok::<bool, bcrypt::BcryptError>(true),
{
    match outcome {
        Ok(equal) => equal,
        Err(_) => false,
    }
}

/// Checks a presented password against a stored hash.
pub fn verify_password(password: &str, hashed: &str) -> (accepted: bool)
    ensures
        accepted == password_matches(password@, hashed@),
{
    verdict_accepts(bcrypt_verify(password, hashed))
}

/// Turns the backend's answer to a hashing request into the library's own:
/// the hash as it came, or the one error there is.
pub fn hash_or_error(outcome: Result<String, bcrypt::BcryptError>) -> (result: Result<String, AuthError>)
    ensures
        match outcome {
            Ok(hash) => result == Ok::<String, AuthError>(hash),
            Err(_) => result == Err::<String, AuthError>(AuthError::HashingUnavailable),
        },
{
    match outcome {
        Ok(hash) => Ok(hash),
        Err(_) => Err(AuthError::HashingUnavailable),
    }
}

/// Hashes a password under a fresh random salt. Every hash that comes back
/// is one self-describing string of version, cost, salt and digest, and one
/// that `verify_password` accepts for the same password.
pub fn hash_password(password: &str) -> (result: Result<String, AuthError>)
    ensures
        match result {
            Ok(hash) => is_formatted_hash(hash@) && password_matches(password@, hash@),
            Err(e) => e == AuthError::HashingUnavailable,
        },
{
    hash_or_error(bcrypt_hash(password))
}

/// The claims in a decoded payload: present where the payload holds a text
/// subject and an expiry that fits the expiry field.
pub open spec fn payload_claims(payload: Option<(Option<Seq<char>>, Option<u64>)>) -> Option<
    ClaimsView,
> {
    match payload {
        Some((Some(sub), Some(exp))) => if exp <= usize::MAX {
            Some(ClaimsView { sub, exp: exp as nat })
        } else {
            None
        },
        _ => None,
    }
}

/// The claims that `token` carries under `secret`, whatever the time:
/// present where the signing backend accepts the signature and the payload
/// holds well-formed claims.
pub open spec fn authentic_claims(token: Seq<char>, secret: Seq<char>) -> Option<ClaimsView> {
    payload_claims(verified_claims(token, secret, SUBJECT_CLAIM@, EXPIRY_CLAIM@))
}

/// `claims` where they still hold at `now`: the expiry must lie strictly
/// after `now`, with no leeway.
pub open spec fn unexpired(claims: Option<ClaimsView>, now: nat) -> Option<ClaimsView> {
    match claims {
        Some(c) => if c.exp > now {
            Some(c)
        } else {
            None
        },
        None => None,
    }
}

/// What validating `token` under `secret` at the time `now` yields.
pub open spec fn valid_claims(token: Seq<char>, secret: Seq<char>, now: nat) -> Option<
    ClaimsView,
> {
    unexpired(authentic_claims(token, secret), now)
}

/// What issuing a token for `username` with the expiry `exp` under `secret`
/// yields: the token, or `None` where the signing backend fails.
pub open spec fn issued_token(username: Seq<char>, exp: nat, secret: Seq<char>) -> Option<
    Seq<char>,
> {
    signed_token(SUBJECT_CLAIM@, username, EXPIRY_CLAIM@, exp as u64, secret)
}

/// Builds claims from the two entries read out of a payload. Both must be
/// there, and the expiry must fit the expiry field.
pub fn claims_from_payload(sub: Option<String>, exp: Option<u64>) -> (claims: Option<Claims>)
    ensures
        claims.deep_view() == payload_claims(Some((sub.deep_view(), exp))),
{
    match (sub, exp) {
        (Some(sub), Some(exp)) => {
            if exp <= usize::MAX as u64 {
                Some(Claims { sub, exp: exp as usize })
            } else {
                None
            }
        },
        _ => None,
    }
}

/// Lets claims through where they still hold at `now`.
pub fn unexpired_claims(claims: Claims, now: u64) -> (live: Option<Claims>)
    ensures
        live == if claims.exp > now {
            Some(claims)
        } else {
            None
        },
{
    if claims.exp as u64 > now {
        Some(claims)
    } else {
        None
    }
}

/// What validating a decoded payload at the time `now` yields: nothing where
/// decoding failed, else the payload's claims where they still hold.
pub fn accepted_claims(
    outcome: Result<(Option<String>, Option<u64>), jsonwebtoken::errors::Error>,
    now: u64,
) -> (claims: Option<Claims>)
    ensures
        claims.deep_view() == match outcome {
            Ok(found) => unexpired(
                payload_claims(Some((found.0.deep_view(), found.1))),
                now as nat,
            ),
            Err(_) => None,
        },
{
    match outcome {
        Ok((sub, exp)) => match claims_from_payload(sub, exp) {
            Some(claims) => unexpired_claims(claims, now),
            None => None,
        },
        Err(_) => None,
    }
}

/// Validates `token` under `secret` as of the time `now`, in seconds since
/// the Unix epoch. The claims come back where the signature is the one that
/// `secret` gives, the payload holds a subject and an expiry, and the expiry
/// lies strictly after `now`. Every failure gives the same `None`.
pub fn decode_jwt_at(token: &str, secret: &str, now: u64) -> (claims: Option<Claims>)
    ensures
        claims.deep_view() == valid_claims(token@, secret@, now as nat),
        claims matches Some(c) ==> c.exp > now,
{
    accepted_claims(decode_verified(token, secret, SUBJECT_CLAIM, EXPIRY_CLAIM), now)
}

/// What validating `token` under `secret` yields for a reading of the clock:
/// what it yields at the time read, and nothing where the clock gave no
/// time.
pub open spec fn valid_claims_on(token: Seq<char>, secret: Seq<char>, reading: Option<u64>) -> Option<
    ClaimsView,
> {
    match reading {
        Some(now) => valid_claims(token, secret, now as nat),
        None => None,
    }
}

/// Validates `token` under `secret` for a reading of the clock: `Some` of
/// the seconds since the Unix epoch, or `None` where the clock reads earlier
/// than the epoch, which validates nothing.
pub fn decode_jwt_on(token: &str, secret: &str, reading: Option<u64>) -> (claims: Option<Claims>)
    ensures
        claims.deep_view() == valid_claims_on(token@, secret@, reading),
{
    match reading {
        Some(now) => decode_jwt_at(token, secret, now),
        None => None,
    }
}

/// Validates `token` under `secret` as of now by the system clock. Whatever
/// the clock reads, the result is that of validating for that reading.
pub fn decode_jwt(token: &str, secret: &str) -> (claims: Option<Claims>)
    ensures
        exists|reading: Option<u64>|
            claims.deep_view() == #[trigger] valid_claims_on(token@, secret@, reading),
{
    decode_jwt_on(token, secret, unix_time())
}

/// The expiry of a token issued at `now` to live for `ttl` seconds, or why
/// there is none: a lifetime of zero is refused, and so is an expiry beyond
/// the range of the expiry field.
pub open spec fn expiry_of(now: nat, ttl: nat) -> Result<nat, AuthError> {
    if ttl == 0 {
        Err(AuthError::ZeroLifetime)
    } else if now + ttl > usize::MAX {
        Err(AuthError::ExpiryOutOfRange)
    } else {
        Ok(now + ttl)
    }
}

/// What issuing a token for `username` under `secret` at `now`, to live for
/// `ttl` seconds, yields.
pub open spec fn issue_outcome(username: Seq<char>, secret: Seq<char>, now: nat, ttl: nat) -> Result<
    Seq<char>,
    AuthError,
> {
    match expiry_of(now, ttl) {
        Ok(exp) => match issued_token(username, exp, secret) {
            Some(token) => Ok(token),
            None => Err(AuthError::SigningFailed),
        },
        Err(e) => Err(e),
    }
}

/// The mathematical content of what an issuing function returns.
pub open spec fn outcome_view(result: Result<String, AuthError>) -> Result<Seq<char>, AuthError> {
    match result {
        Ok(token) => Ok(token@),
        Err(e) => Err(e),
    }
}

/// Computes the expiry of a token issued at `now` to live for `ttl_seconds`.
pub fn expiry_after(now: u64, ttl_seconds: u64) -> (expiry: Result<usize, AuthError>)
    ensures
        match expiry {
            Ok(exp) => expiry_of(now as nat, ttl_seconds as nat) == Ok::<nat, AuthError>(exp as nat),
            Err(e) => expiry_of(now as nat, ttl_seconds as nat) == Err::<nat, AuthError>(e),
        },
{
    if ttl_seconds == 0 {
        return Err(AuthError::ZeroLifetime);
    }
    match now.checked_add(ttl_seconds) {
        Some(exp) => {
            if exp <= usize::MAX as u64 {
                Ok(exp as usize)
            } else {
                Err(AuthError::ExpiryOutOfRange)
            }
        },
        None => Err(AuthError::ExpiryOutOfRange),
    }
}

/// Turns the signing backend's answer into the library's own: the token as
/// it came, or the signing error.
pub fn token_or_error(outcome: Result<String, jsonwebtoken::errors::Error>) -> (result: Result<
    String,
    AuthError,
>)
    ensures
        match outcome {
            Ok(token) => result == Ok::<String, AuthError>(token),
            Err(_) => result == Err::<String, AuthError>(AuthError::SigningFailed),
        },
{
    match outcome {
        Ok(token) => Ok(token),
        Err(_) => Err(AuthError::SigningFailed),
    }
}

/// Issues a token for `username`, signed with `secret`, that expires
/// `ttl_seconds` after `now`, both in seconds. The token is three base64url
/// segments joined by dots. Validated under the same secret at any time
/// before its expiry, it yields `username` and that expiry.
pub fn generate_jwt_at(username: &str, secret: &str, now: u64, ttl_seconds: u64) -> (result: Result<
    String,
    AuthError,
>)
    ensures
        outcome_view(result) == issue_outcome(username@, secret@, now as nat, ttl_seconds as nat),
        result matches Ok(token) ==> has_three_segments(token@),
        result matches Ok(token) ==> authentic_claims(token@, secret@) == Some(
            ClaimsView { sub: username@, exp: (now + ttl_seconds) as nat },
        ),
        result matches Ok(token) ==> forall|at: nat|
            at < now + ttl_seconds ==> #[trigger] valid_claims(token@, secret@, at) == Some(
                ClaimsView { sub: username@, exp: (now + ttl_seconds) as nat },
            ),
{
    match expiry_after(now, ttl_seconds) {
        Ok(exp) => {
            proof {
                reveal_strlit("sub");
                reveal_strlit("exp");
                assert(SUBJECT_CLAIM@[0] != EXPIRY_CLAIM@[0]);
            }
            token_or_error(encode_signed(SUBJECT_CLAIM, username, EXPIRY_CLAIM, exp as u64, secret))
        },
        Err(e) => Err(e),
    }
}

/// What issuing yields for a reading of the clock: what it yields at the
/// time read, and the clock error where the clock gave no time.
pub open spec fn issue_outcome_on(
    username: Seq<char>,
    secret: Seq<char>,
    reading: Option<u64>,
    ttl: nat,
) -> Result<Seq<char>, AuthError> {
    match reading {
        Some(now) => issue_outcome(username, secret, now as nat, ttl),
        None => Err(AuthError::ClockBeforeEpoch),
    }
}

/// Whether `result` is what issuing for the reading `reading` gives, and a
/// token in it carries, under `secret`, `username` and the expiry that
/// follows from the time read.
pub open spec fn issued_on(
    result: Result<String, AuthError>,
    username: Seq<char>,
    secret: Seq<char>,
    reading: Option<u64>,
    ttl: nat,
) -> bool {
    &&& outcome_view(result) == issue_outcome_on(username, secret, reading, ttl)
    &&& result matches Ok(token) ==> {
        &&& reading matches Some(now)
        &&& authentic_claims(token@, secret) == Some(
            ClaimsView { sub: username, exp: (now + ttl) as nat },
        )
    }
}

/// Issues a token for a reading of the clock: `Some` of the seconds since
/// the Unix epoch, or `None` where the clock reads earlier than the epoch,
/// for which no token is issued.
pub fn generate_jwt_on(username: &str, secret: &str, reading: Option<u64>, ttl_seconds: u64) -> (result:
    Result<String, AuthError>)
    ensures
        issued_on(result, username@, secret@, reading, ttl_seconds as nat),
        result matches Ok(token) ==> has_three_segments(token@),
{
    match reading {
        Some(now) => generate_jwt_at(username, secret, now, ttl_seconds),
        None => Err(AuthError::ClockBeforeEpoch),
    }
}

/// Issues a token for `username`, signed with `secret`, that expires
/// `ttl_seconds` after now by the system clock. Whatever the clock reads, the
/// result is that of issuing for that reading.
pub fn generate_jwt_with_ttl(username: &str, secret: &str, ttl_seconds: u64) -> (result: Result<
    String,
    AuthError,
>)
    ensures
        exists|reading: Option<u64>| #[trigger]
            issued_on(result, username@, secret@, reading, ttl_seconds as nat),
        result matches Ok(token) ==> has_three_segments(token@),
{
    generate_jwt_on(username, secret, unix_time(), ttl_seconds)
}

/// Issues a token for `username`, signed with `secret`, that expires
/// `TOKEN_TTL_SECONDS` after now by the system clock.
pub fn generate_jwt(username: &str, secret: &str) -> (result: Result<String, AuthError>)
    ensures
        exists|reading: Option<u64>| #[trigger]
            issued_on(result, username@, secret@, reading, TOKEN_TTL_SECONDS as nat),
        result matches Ok(token) ==> has_three_segments(token@),
        result matches Err(e) ==> e != AuthError::ZeroLifetime,
{
    generate_jwt_with_ttl(username, secret, TOKEN_TTL_SECONDS)
}

} // verus!
