//! The boundary to the `jsonwebtoken` crate, used with its default header:
//! HMAC-SHA256 under a shared secret. Nothing in this file is proved: each
//! item states what the crate's source shows of one of its functions.

use vstd::prelude::*;

verus! {

/// `jsonwebtoken::errors::Error`, what encoding and decoding fail with.
/// Opaque here.
#[verifier::external_type_specification]
#[verifier::external_body]
pub struct ExTokenError(jsonwebtoken::errors::Error);

/// What `jsonwebtoken::encode` returns for a payload of two claims, a text
/// under the name `text_claim` followed by a number under the name
/// `number_claim`, signed with `secret`: `Some` of the token where it
/// returns `Ok`, `None` where it returns an error. The call reads nothing
/// but these values.
pub uninterp spec fn signed_token(
    text_claim: Seq<char>,
    text: Seq<char>,
    number_claim: Seq<char>,
    number: u64,
    secret: Seq<char>,
) -> Option<Seq<char>>;

/// What `jsonwebtoken::decode` finds in `token` under `secret`, with the
/// check of the expiry switched off: `None` where it returns an error (the
/// token is not three segments, the header does not name HMAC-SHA256, the
/// signature is not the one that `secret` gives, or the payload is not a JSON
/// object); otherwise what the payload holds under the two names: the value
/// under `text_claim` where that is a string, and the value under
/// `number_claim` where that is an integer from 0 to `u64::MAX`. With the
/// expiry check off, nothing but these values bears on what comes back.
pub uninterp spec fn verified_claims(
    token: Seq<char>,
    secret: Seq<char>,
    text_claim: Seq<char>,
    number_claim: Seq<char>,
) -> Option<(Option<Seq<char>>, Option<u64>)>;

/// Whether `c` belongs to the URL-safe base64 alphabet.
pub open spec fn is_base64url(c: char) -> bool {
    ||| 'A' <= c <= 'Z'
    ||| 'a' <= c <= 'z'
    ||| '0' <= c <= '9'
    ||| c == '-'
    ||| c == '_'
}

/// Whether `text` is one segment of a token: not empty, and base64url
/// throughout.
pub open spec fn is_segment(text: Seq<char>) -> bool {
    &&& text.len() > 0
    &&& forall|i: int| 0 <= i < text.len() ==> is_base64url(#[trigger] text[i])
}

/// Whether `token` is three segments joined by dots.
pub open spec fn has_three_segments(token: Seq<char>) -> bool {
    exists|header: Seq<char>, payload: Seq<char>, signature: Seq<char>|
        {
            &&& is_segment(header)
            &&& is_segment(payload)
            &&& is_segment(signature)
            &&& token == #[trigger] (header + seq!['.'] + payload + seq!['.'] + signature)
        }
}

/// Calls `jsonwebtoken::encode` with the default header, a payload object
/// that holds `text` under `text_claim` and then `number` under
/// `number_claim`, and `secret` as the HMAC key.
///
/// The crate encodes header and payload as unpadded URL-safe base64, signs
/// the two joined by a dot, and appends the encoded signature after another
/// dot: hence the three segments. Decoding such a token under the same
/// secret signs the same text again and compares, so the signature is
/// accepted, and the payload parses back to the object that was written:
/// hence the last clause, which needs two different names, since one name
/// would leave one entry.
#[verifier::external_body]
pub(crate) fn encode_signed(
    text_claim: &str,
    text: &str,
    number_claim: &str,
    number: u64,
    secret: &str,
) -> (outcome: Result<String, jsonwebtoken::errors::Error>)
    ensures
        outcome matches Ok(token) ==> signed_token(
            text_claim@,
            text@,
            number_claim@,
            number,
            secret@,
        ) == Some(token@),
        outcome is Err ==> signed_token(text_claim@, text@, number_claim@, number, secret@) is None,
        outcome matches Ok(token) ==> has_three_segments(token@),
        outcome matches Ok(token) ==> (text_claim@ != number_claim@ ==> verified_claims(
            token@,
            secret@,
            text_claim@,
            number_claim@,
        ) == Some((Some(text@), Some(number)))),
{
    let mut payload = serde_json::Map::new();
    payload.insert(text_claim.to_owned(), serde_json::Value::from(text));
    payload.insert(number_claim.to_owned(), serde_json::Value::from(number));
    let key = jsonwebtoken::EncodingKey::from_secret(secret.as_bytes());
    jsonwebtoken::encode(&jsonwebtoken::Header::default(), &payload, &key)
}

/// Calls `jsonwebtoken::decode` with `secret` as the HMAC key and the
/// default validation but for the expiry check, which is switched off, and
/// reads two claims out of the payload with `Value::get`, `Value::as_str` and
/// `Value::as_u64`. The contract only gives the outcome its name.
///
/// The crate reads the system clock on its way even with the expiry check
/// off, and panics where the clock reads earlier than the Unix epoch. No
/// argument brings that about, so no precondition can rule it out.
#[verifier::external_body]
pub(crate) fn decode_verified(
    token: &str,
    secret: &str,
    text_claim: &str,
    number_claim: &str,
) -> (outcome: Result<(Option<String>, Option<u64>), jsonwebtoken::errors::Error>)
    ensures
        outcome matches Ok(found) ==> verified_claims(
            token@,
            secret@,
            text_claim@,
            number_claim@,
        ) == Some((found.0.deep_view(), found.1)),
        outcome is Err ==> verified_claims(token@, secret@, text_claim@, number_claim@) is None,
{
    let key = jsonwebtoken::DecodingKey::from_secret(secret.as_bytes());
    let checks = jsonwebtoken::Validation { validate_exp: false, ..Default::default() };
    let payload = jsonwebtoken::decode::<serde_json::Value>(token, &key, &checks)?.claims;
    let text = payload.get(text_claim).and_then(serde_json::Value::as_str).map(str::to_owned);
    let number = payload.get(number_claim).and_then(serde_json::Value::as_u64);
    Ok((text, number))
}

} // verus!
