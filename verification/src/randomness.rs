//! The boundary to the `rand` crate: the thread-local generator and the one
//! distribution this library draws from.

use vstd::prelude::*;

verus! {

/// Whether `b` is the ASCII code of a letter or a digit.
pub open spec fn is_alphanumeric_byte(b: u8) -> bool {
    ||| 0x30 <= b <= 0x39
    ||| 0x41 <= b <= 0x5a
    ||| 0x61 <= b <= 0x7a
}

/// `rand::rngs::ThreadRng`, a handle to the thread-local generator. Its state
/// is opaque here.
#[verifier::external_type_specification]
#[verifier::external_body]
pub struct ExThreadRng(rand::rngs::ThreadRng);

/// `rand::thread_rng` hands out a handle to the thread-local generator,
/// which the system seeds on first use; it panics where the system has no
/// seed to give. Nothing is claimed of the handle.
pub assume_specification[ rand::thread_rng ]() -> (rng: rand::rngs::ThreadRng);

/// Draws one byte with `Rng::sample` from `rand::distributions::Alphanumeric`.
/// That distribution picks its byte from the table `A-Z`, `a-z`, `0-9`, so
/// whatever is drawn is the code of a letter or a digit; which one is left
/// open.
#[verifier::external_body]
pub(crate) fn sample_alphanumeric(rng: &mut rand::rngs::ThreadRng) -> (b: u8)
    ensures
        is_alphanumeric_byte(b),
{
    rand::Rng::sample(rng, rand::distributions::Alphanumeric)
}

} // verus!
