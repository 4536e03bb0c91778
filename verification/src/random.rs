//! The source of random bytes.

use vstd::prelude::*;
use rand::Rng;

verus! {

/// Draws a byte from `rand::thread_rng()` with `Rng::gen`. Nothing is claimed
/// of the byte: every value of `u8` may come back, and two calls may differ.
/// The generator is seeded by the operating system when a thread first uses
/// it, and `rand` panics if no seed can be had.
#[verifier::external_body]
pub(crate) fn random_byte() -> (byte: u8) {
    rand::thread_rng().gen()
}

} // verus!
