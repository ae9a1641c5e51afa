//! The randomness that key generation and encryption draw on.
//!
//! The schemes never reach for ambient entropy: the caller hands in a
//! source, and may hand in a seeded one to make a run repeatable.

use vstd::prelude::*;

verus! {

/// A source of secure random bytes.
///
/// Nothing is assumed of the bytes that an implementation returns: every
/// contract that depends on them holds whatever they are. That they are
/// uniform and unpredictable is the caller's responsibility.
pub trait RandomSource {
    /// The next byte of the stream.
    fn next_byte(&mut self) -> u8;
}

/// Draws `N` bytes from `rng`, in the order in which they come.
pub fn random_array<R: RandomSource, const N: usize>(rng: &mut R) -> (out: [u8; N]) {
    let mut out = [0u8; N];
    let mut i: usize = 0;
    while i < N
        invariant
            i <= N,
        decreases N - i,
    {
        out[i] = rng.next_byte();
        i += 1;
    }
    out
}

} // verus!
