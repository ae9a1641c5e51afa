//! ElGamal encryption of one group element under a public key, over any
//! group that offers the operations of [`ElGamalFriendlyGroup`].
//!
//! Scalars and elements are spoken of by their canonical byte encodings:
//! the view of a scalar or of an element is that encoding.

use crate::random::{random_array, RandomSource};
use vstd::prelude::*;

pub mod curve25519;

verus! {

/// A group whose elements can carry ElGamal ciphertexts.
///
/// The specification functions give the group's operations on encodings.
/// Two laws are part of the contract, because decryption rests on them:
/// adding an element and subtracting it again changes nothing, and
/// multiplying a multiple of the generator by a second scalar gives the
/// same element in either order.
pub trait ElGamalFriendlyGroup {
    type Scalar: View<V = Seq<u8>>;

    type Element: View<V = Seq<u8>>;

    /// Whether `bytes` is the canonical encoding of a scalar.
    spec fn is_scalar(bytes: Seq<u8>) -> bool;

    /// Whether `bytes` is the canonical encoding of an element.
    spec fn is_element(bytes: Seq<u8>) -> bool;

    /// The scalar that a 64-byte seed stands for.
    spec fn spec_scalar_from_seed(seed: Seq<u8>) -> Seq<u8>;

    /// The generator multiplied by `scalar`.
    spec fn spec_generator_mul(scalar: Seq<u8>) -> Seq<u8>;

    /// The sum of two elements.
    spec fn spec_add(a: Seq<u8>, b: Seq<u8>) -> Seq<u8>;

    /// The difference of two elements.
    spec fn spec_sub(a: Seq<u8>, b: Seq<u8>) -> Seq<u8>;

    /// `element` multiplied by `scalar`.
    spec fn spec_mul(element: Seq<u8>, scalar: Seq<u8>) -> Seq<u8>;

    /// Maps a seed of 64 uniform bytes to a scalar.
    fn scalar_from_seed(seed: &[u8; 64]) -> (scalar: Self::Scalar)
        ensures
            scalar@ == Self::spec_scalar_from_seed(seed@),
            Self::is_scalar(scalar@),
    ;

    /// Decodes a scalar; `None` unless `bytes` is a canonical encoding.
    fn scalar_from_bytes(bytes: &[u8]) -> (scalar: Option<Self::Scalar>)
        ensures
            scalar is Some <==> Self::is_scalar(bytes@),
            scalar matches Some(s) ==> s@ == bytes@,
    ;

    /// Decodes an element; `None` unless `bytes` is a canonical encoding.
    fn element_from_bytes(bytes: &[u8]) -> (element: Option<Self::Element>)
        ensures
            element is Some <==> Self::is_element(bytes@),
            element matches Some(e) ==> e@ == bytes@,
    ;

    /// The canonical encoding of `scalar`.
    fn scalar_to_bytes(scalar: &Self::Scalar) -> (bytes: Vec<u8>)
        ensures
            bytes@ == scalar@,
            Self::is_scalar(bytes@),
    ;

    /// The canonical encoding of `element`.
    fn element_to_bytes(element: &Self::Element) -> (bytes: Vec<u8>)
        ensures
            bytes@ == element@,
            Self::is_element(bytes@),
    ;

    /// The generator multiplied by `scalar`.
    fn generator_mul(scalar: &Self::Scalar) -> (product: Self::Element)
        ensures
            product@ == Self::spec_generator_mul(scalar@),
    ;

    /// `a + b`. Subtracting `b` from the sum gives `a` back.
    fn add(a: &Self::Element, b: &Self::Element) -> (sum: Self::Element)
        ensures
            sum@ == Self::spec_add(a@, b@),
            Self::spec_sub(sum@, b@) == a@,
    ;

    /// `a - b`.
    fn sub(a: &Self::Element, b: &Self::Element) -> (difference: Self::Element)
        ensures
            difference@ == Self::spec_sub(a@, b@),
    ;

    /// `element` multiplied by `scalar`. Where `element` is the generator
    /// multiplied by a scalar `t`, the product is also the generator
    /// multiplied by `scalar` and then by `t`.
    fn mul(element: &Self::Element, scalar: &Self::Scalar) -> (product: Self::Element)
        ensures
            product@ == Self::spec_mul(element@, scalar@),
            forall|t: Seq<u8>|
                Self::is_scalar(t) && element@ == #[trigger] Self::spec_generator_mul(t)
                    ==> product@ == Self::spec_mul(Self::spec_generator_mul(scalar@), t),
    ;
}

/// Whether `pk` is the public key of the secret key `sk`.
pub open spec fn is_key_pair<G: ElGamalFriendlyGroup>(sk: Seq<u8>, pk: Seq<u8>) -> bool {
    G::is_scalar(sk) && pk == G::spec_generator_mul(sk)
}

/// The ciphertext of `msg` under `pk` with the ephemeral scalar `r`.
pub open spec fn spec_encrypt<G: ElGamalFriendlyGroup>(
    r: Seq<u8>,
    pk: Seq<u8>,
    msg: Seq<u8>,
) -> (Seq<u8>, Seq<u8>) {
    (G::spec_generator_mul(r), G::spec_add(msg, G::spec_mul(pk, r)))
}

/// The element that the ciphertext `(c0, c1)` holds for the secret key `sk`.
pub open spec fn spec_decrypt<G: ElGamalFriendlyGroup>(
    sk: Seq<u8>,
    c0: Seq<u8>,
    c1: Seq<u8>,
) -> Seq<u8> {
    G::spec_sub(c1, G::spec_mul(c0, sk))
}

/// A scalar drawn from `rng`.
pub fn rand_scalar<G: ElGamalFriendlyGroup, R: RandomSource>(rng: &mut R) -> (scalar: G::Scalar)
    ensures
        G::is_scalar(scalar@),
        exists|seed: Seq<u8>| seed.len() == 64 && scalar@ == G::spec_scalar_from_seed(seed),
{
    let seed: [u8; 64] = random_array::<R, 64>(rng);
    let scalar = G::scalar_from_seed(&seed);
    assert(seed@.len() == 64 && scalar@ == G::spec_scalar_from_seed(seed@));
    scalar
}

/// An element drawn from `rng`: the generator multiplied by a drawn scalar.
pub fn rand_element<G: ElGamalFriendlyGroup, R: RandomSource>(rng: &mut R) -> (element:
    G::Element)
    ensures
        exists|seed: Seq<u8>|
            seed.len() == 64 && element@ == G::spec_generator_mul(
                G::spec_scalar_from_seed(seed),
            ),
{
    let seed: [u8; 64] = random_array::<R, 64>(rng);
    let scalar = G::scalar_from_seed(&seed);
    let element = G::generator_mul(&scalar);
    assert(seed@.len() == 64 && element@ == G::spec_generator_mul(
        G::spec_scalar_from_seed(seed@),
    ));
    element
}

/// The key pair that `seed` stands for.
pub fn key_gen_from_seed<G: ElGamalFriendlyGroup>(seed: &[u8; 64]) -> (keys: (
    G::Scalar,
    G::Element,
))
    ensures
        keys.0@ == G::spec_scalar_from_seed(seed@),
        keys.1@ == G::spec_generator_mul(keys.0@),
        is_key_pair::<G>(keys.0@, keys.1@),
{
    let sk = G::scalar_from_seed(seed);
    let pk = G::generator_mul(&sk);
    (sk, pk)
}

/// A fresh key pair: a scalar drawn from `rng`, and the generator multiplied by it.
pub fn key_gen<G: ElGamalFriendlyGroup, R: RandomSource>(rng: &mut R) -> (keys: (
    G::Scalar,
    G::Element,
))
    ensures
        is_key_pair::<G>(keys.0@, keys.1@),
        exists|seed: Seq<u8>| seed.len() == 64 && keys.0@ == G::spec_scalar_from_seed(seed),
{
    let seed: [u8; 64] = random_array::<R, 64>(rng);
    let keys = key_gen_from_seed::<G>(&seed);
    assert(seed@.len() == 64 && keys.0@ == G::spec_scalar_from_seed(seed@));
    keys
}

/// Encrypts `msg` under `pk` with the ephemeral scalar `r`.
///
/// Whoever holds the secret key of `pk` decrypts the result to `msg`.
pub fn encrypt_with<G: ElGamalFriendlyGroup>(
    r: &G::Scalar,
    pk: &G::Element,
    msg: &G::Element,
) -> (c: (G::Element, G::Element))
    ensures
        (c.0@, c.1@) == spec_encrypt::<G>(r@, pk@, msg@),
        forall|sk: Seq<u8>| #[trigger]
            is_key_pair::<G>(sk, pk@) ==> spec_decrypt::<G>(sk, c.0@, c.1@) == msg@,
{
    let c0 = G::generator_mul(r);
    let shared = G::mul(pk, r);
    let c1 = G::add(msg, &shared);
    (c0, c1)
}

/// Encrypts `msg` under `pk` with an ephemeral scalar drawn from `rng`.
///
/// Whoever holds the secret key of `pk` decrypts the result to `msg`.
pub fn encrypt<G: ElGamalFriendlyGroup, R: RandomSource>(
    rng: &mut R,
    pk: &G::Element,
    msg: &G::Element,
) -> (c: (G::Element, G::Element))
    ensures
        exists|seed: Seq<u8>|
            seed.len() == 64 && (c.0@, c.1@) == spec_encrypt::<G>(
                G::spec_scalar_from_seed(seed),
                pk@,
                msg@,
            ),
        forall|sk: Seq<u8>| #[trigger]
            is_key_pair::<G>(sk, pk@) ==> spec_decrypt::<G>(sk, c.0@, c.1@) == msg@,
{
    let seed: [u8; 64] = random_array::<R, 64>(rng);
    let r = G::scalar_from_seed(&seed);
    let c = encrypt_with::<G>(&r, pk, msg);
    assert(seed@.len() == 64 && (c.0@, c.1@) == spec_encrypt::<G>(
        G::spec_scalar_from_seed(seed@),
        pk@,
        msg@,
    ));
    c
}

/// Decrypts the ciphertext `(c0, c1)` with the secret key `sk`.
pub fn decrypt<G: ElGamalFriendlyGroup>(sk: &G::Scalar, c0: &G::Element, c1: &G::Element) -> (msg:
    G::Element)
    ensures
        msg@ == spec_decrypt::<G>(sk@, c0@, c1@),
{
    let shared = G::mul(c0, sk);
    G::sub(c1, &shared)
}

} // verus!
