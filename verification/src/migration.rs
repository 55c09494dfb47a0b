//! Moving a store that still holds passwords in the clear over to hashes,
//! one stored value at a time.

use vstd::prelude::*;
use vstd::string::StrSliceExecFns;
use crate::auth::{hash_password, password_matches, AuthError};
use crate::hashing::is_formatted_hash;

verus! {

/// Whether `text` starts with `$2b$`, the marker by which a stored value is
/// taken for a hash.
pub open spec fn has_hash_marker(text: Seq<char>) -> bool {
    &&& text.len() >= 4
    &&& text[0] == '$'
    &&& text[1] == '2'
    &&& text[2] == 'b'
    &&& text[3] == '$'
}

/// Every hash of the layout that the hasher writes carries the marker.
pub proof fn lemma_formatted_hash_has_marker(text: Seq<char>)
    requires
        is_formatted_hash(text),
    ensures
        has_hash_marker(text),
{
    let head = text.subrange(0, 7);
    assert(head[0] == text[0] && head[1] == text[1] && head[2] == text[2] && head[3] == text[3]);
}

/// What is to be done with one stored value.
#[derive(Debug, PartialEq, Eq)]
pub enum Migration {
    /// The value is a hash already: leave it.
    Keep,
    /// The value was a password in the clear: store this hash of it instead.
    Replace(String),
    /// The value was a password in the clear, and hashing it failed: leave it
    /// for another pass.
    Failed,
}

/// Tells whether a stored value is a hash already, by its marker.
pub fn is_hashed(stored: &str) -> (hashed: bool)
    ensures
        hashed == has_hash_marker(stored@),
{
    if stored.unicode_len() < 4 {
        return false;
    }
    stored.get_char(0) == '$' && stored.get_char(1) == '2' && stored.get_char(2) == 'b'
        && stored.get_char(3) == '$'
}

/// The step for a password in the clear, given what hashing it gave.
pub fn replacement(outcome: Result<String, AuthError>) -> (step: Migration)
    ensures
        step == match outcome {
            Ok(hash) => Migration::Replace(hash),
            Err(_) => Migration::Failed,
        },
{
    match outcome {
        Ok(hash) => Migration::Replace(hash),
        Err(_) => Migration::Failed,
    }
}

/// Decides what to do with one stored value. A value that carries the hash
/// marker is kept. Any other is taken for a password and hashed; the hash
/// that replaces it carries the marker, so a second pass keeps it, and it is
/// one that the password verifies against.
pub fn migrate_password(stored: &str) -> (step: Migration)
    ensures
        match step {
            Migration::Keep => has_hash_marker(stored@),
            Migration::Replace(hash) => {
                &&& !has_hash_marker(stored@)
                &&& is_formatted_hash(hash@)
                &&& has_hash_marker(hash@)
                &&& password_matches(stored@, hash@)
            },
            Migration::Failed => !has_hash_marker(stored@),
        },
{
    if is_hashed(stored) {
        Migration::Keep
    } else {
        let hashed = hash_password(stored);
        proof {
            if hashed is Ok {
                lemma_formatted_hash_has_marker(hashed->Ok_0@);
            }
        }
        replacement(hashed)
    }
}

} // verus!
