//! The source of random bytes.
use vstd::prelude::*;

verus! {

/// A byte from `rand::random`, which draws from the thread-local generator;
/// every `u8` is a possible outcome and nothing else is known of it.
#[verifier::external_body]
pub(crate) fn random_u8() -> u8 {
    rand::random::<u8>()
}

} // verus!
