//! The boundary to the `bcrypt` crate. Nothing in this file is proved: each
//! item states what the crate's source shows of one of its functions.

use vstd::prelude::*;

verus! {

/// `bcrypt::BcryptError`, what the crate's functions fail with. Opaque here.
#[verifier::external_type_specification]
#[verifier::external_body]
pub struct ExBcryptError(bcrypt::BcryptError);

/// What `bcrypt::verify` returns for a password and a stored hash:
/// `Some(b)` where it returns `Ok(b)`, `None` where it returns an error.
/// The call reads nothing but its two arguments.
pub uninterp spec fn bcrypt_verdict(password: Seq<char>, hash: Seq<char>) -> Option<bool>;

/// Whether `c` belongs to the base64 alphabet that bcrypt writes salt and
/// digest in.
pub open spec fn is_bcrypt_base64(c: char) -> bool {
    ||| c == '.'
    ||| c == '/'
    ||| 'A' <= c <= 'Z'
    ||| 'a' <= c <= 'z'
    ||| '0' <= c <= '9'
}

/// Whether `text` has the layout of a hash made at the default cost: the
/// version tag `$2b$`, the cost `12` and another `$`, then 22 characters of
/// salt and 31 of digest.
pub open spec fn is_formatted_hash(text: Seq<char>) -> bool {
    &&& text.len() == 60
    &&& text.subrange(0, 7) == seq!['$', '2', 'b', '$', '1', '2', '$']
    &&& forall|i: int| 7 <= i < 60 ==> is_bcrypt_base64(#[trigger] text[i])
}

/// Calls `bcrypt::verify`, which splits `hash` into cost, salt and digest,
/// hashes `password` again under that cost and salt, and compares the
/// digests. The contract only gives the outcome its name.
#[verifier::external_body]
pub(crate) fn bcrypt_verify(password: &str, hash: &str) -> (outcome: Result<bool, bcrypt::BcryptError>)
    ensures
        outcome matches Ok(equal) ==> bcrypt_verdict(password@, hash@) == Some(equal),
        outcome is Err ==> bcrypt_verdict(password@, hash@) is None,
{
    bcrypt::verify(password, hash)
}

/// Calls `bcrypt::hash` with the crate's default cost, which is 12. The salt
/// is random, so the hash itself is left open. Two things hold of every hash
/// that comes back. It is formatted as `$2b$`, the cost in two digits, `$`,
/// and the 16 bytes of salt and 23 bytes of digest in unpadded base64. And
/// `bcrypt::verify` of the same password against it parses these parts back,
/// recomputes that very digest and so returns `Ok(true)`. An error comes
/// back where the system has no randomness for the salt.
#[verifier::external_body]
pub(crate) fn bcrypt_hash(password: &str) -> (outcome: Result<String, bcrypt::BcryptError>)
    ensures
        outcome matches Ok(hash) ==> is_formatted_hash(hash@),
        outcome matches Ok(hash) ==> bcrypt_verdict(password@, hash@) == Some(true),
{
    bcrypt::hash(password, bcrypt::DEFAULT_COST)
}

} // verus!
