//! Public-key encryption of byte strings: the capability that every scheme
//! of this kind offers, whichever scheme the caller picks by name.

use crate::error::{bytes_result, SchemeError};
use crate::random::RandomSource;
use vstd::prelude::*;

pub mod scheme1;

verus! {

/// A public-key encryption scheme on byte strings.
///
/// Keys, messages and ciphertexts are plain byte strings. A scheme says
/// which secret key matches which public key and what decryption returns;
/// the contract of `enc` then promises that every ciphertext it produces
/// decrypts, under each matching secret key, to the message.
pub trait AsymmetricEncryption {
    /// The name under which the scheme is recorded beside its ciphertexts.
    spec fn spec_scheme_name() -> Seq<char>;

    /// Whether `pk` is the public key of the secret key `sk`.
    spec fn is_key_pair(sk: Seq<u8>, pk: Seq<u8>) -> bool;

    /// What decryption of `ciphertext` with `sk` returns.
    spec fn spec_dec(sk: Seq<u8>, ciphertext: Seq<u8>) -> Result<Seq<u8>, SchemeError>;

    /// The name under which the scheme is recorded beside its ciphertexts.
    fn scheme_name() -> (name: String)
        ensures
            name@ == Self::spec_scheme_name(),
    ;

    /// Generates a key pair `(sk, pk)` from the randomness of `rng`.
    fn key_gen<R: RandomSource>(rng: &mut R) -> (keys: (Vec<u8>, Vec<u8>))
        ensures
            Self::is_key_pair(keys.0@, keys.1@),
    ;

    /// Encrypts `msg` to the holder of `pk`.
    ///
    /// Round trip: a ciphertext that comes back decrypts to `msg` under
    /// every secret key that matches `pk`.
    fn enc<R1: RandomSource, R2: RandomSource>(
        main_rng: &mut R1,
        aead_rng: &mut R2,
        pk: &[u8],
        msg: &[u8],
    ) -> (ciphertext: Result<Vec<u8>, SchemeError>)
        ensures
            ciphertext matches Ok(c) ==> forall|sk: Seq<u8>| #[trigger]
                Self::is_key_pair(sk, pk@) ==> Self::spec_dec(sk, c@) == Ok::<
                    Seq<u8>,
                    SchemeError,
                >(msg@),
    ;

    /// Decrypts `ciphertext` with `sk`. The result is a function of the two
    /// arguments alone.
    fn dec(sk: &[u8], ciphertext: &[u8]) -> (msg: Result<Vec<u8>, SchemeError>)
        ensures
            bytes_result(msg) == Self::spec_dec(sk@, ciphertext@),
    ;
}

} // verus!
