//! The source of random bytes.

use vstd::prelude::*;
use rand::Rng;

verus! {

/// Draws a byte from the thread-local generator of `rand`, by
/// `rand::thread_rng` and `Rng::gen_range` over the whole range of a byte.
/// Nothing is claimed of the byte: every value may come, and two calls may
/// differ.
#[verifier::external_body]
pub(crate) fn random_byte() -> (byte: u8) {
    rand::thread_rng().gen_range(0..=255)
}

} // verus!
