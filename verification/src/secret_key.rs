//! The signing secret: a fixed number of random letters and digits.

use vstd::prelude::*;
use crate::randomness::{is_alphanumeric_byte, sample_alphanumeric};

verus! {

/// Number of characters in a signing secret.
pub const SECRET_KEY_LENGTH: usize = 32;

/// Whether `c` is an ASCII letter or digit.
pub open spec fn is_alphanumeric(c: char) -> bool {
    ||| '0' <= c <= '9'
    ||| 'A' <= c <= 'Z'
    ||| 'a' <= c <= 'z'
}

/// Whether `key` has the shape of a signing secret: `SECRET_KEY_LENGTH`
/// characters, each a letter or a digit.
pub open spec fn is_secret_key(key: Seq<char>) -> bool {
    &&& key.len() == SECRET_KEY_LENGTH
    &&& forall|i: int| 0 <= i < key.len() ==> is_alphanumeric(#[trigger] key[i])
}

/// The text whose characters have the given codes, one for one.
pub open spec fn code_text(codes: Seq<u8>) -> Seq<char> {
    Seq::new(codes.len(), |i: int| codes[i] as char)
}

/// `String::push` appends one character.
pub assume_specification[ String::push ](s: &mut String, c: char)
    ensures
        final(s)@ == old(s)@.push(c),
;

/// Draws `count` bytes from the thread-local generator, each the code of a
/// letter or a digit.
pub fn draw_alphanumeric(count: usize) -> (codes: Vec<u8>)
    ensures
        codes@.len() == count,
        forall|i: int| 0 <= i < codes@.len() ==> is_alphanumeric_byte(#[trigger] codes@[i]),
{
    let mut rng = rand::thread_rng();
    let mut codes: Vec<u8> = Vec::new();
    while codes.len() < count
        invariant
            codes@.len() <= count,
            forall|i: int| 0 <= i < codes@.len() ==> is_alphanumeric_byte(#[trigger] codes@[i]),
        decreases count - codes@.len(),
    {
        let code = sample_alphanumeric(&mut rng);
        codes.push(code);
    }
    codes
}

/// Spells out the text that `codes` holds, one character per byte.
pub fn text_of(codes: &Vec<u8>) -> (text: String)
    ensures
        text@ == code_text(codes@),
{
    let mut text = String::new();
    let mut at: usize = 0;
    while at < codes.len()
        invariant
            at <= codes@.len(),
            text@ == code_text(codes@.take(at as int)),
        decreases codes@.len() - at,
    {
        text.push(codes[at] as char);
        proof {
            assert(codes@.take(at + 1) == codes@.take(at as int).push(codes@[at as int]));
        }
        at = at + 1;
    }
    proof {
        assert(codes@.take(at as int) == codes@);
    }
    text
}

/// Draws a fresh signing secret: `SECRET_KEY_LENGTH` characters, each drawn
/// on its own from the letters and digits.
pub fn generate_secret_key() -> (key: String)
    ensures
        is_secret_key(key@),
{
    let codes = draw_alphanumeric(SECRET_KEY_LENGTH);
    text_of(&codes)
}

} // verus!
