//! The source of random bytes.

use vstd::prelude::*;

verus! {

/// One byte from the random generator of the calling thread.
///
/// This calls `rand::random::<u8>()`, which draws from the thread-local
/// generator that `rand` seeds from the operating system. Nothing is claimed
/// of the byte: it may be any of the 256 values, and two calls are unrelated.
/// `rand` panics if the operating system gives it no entropy for the seed.
#[verifier::external_body]
pub(crate) fn random_byte() -> (byte: u8) {
    rand::random::<u8>()
}

} // verus!
