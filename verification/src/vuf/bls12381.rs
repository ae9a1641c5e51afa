//! The groups of the BLS12-381 pairing, through the `ark-bls12-381` crate
//! and its companions.
//!
//! A scalar is spoken of by its canonical 32-byte little-endian encoding, a
//! point of the first group by its compressed 48-byte encoding, a point of
//! the second by its compressed 96-byte encoding. What the outside crates
//! compute on points is named here and not defined; what they compute on
//! scalars is stated outright.

use crate::bytes::{le_bytes, le_value, lemma_le_bytes_len, lemma_le_value_of_le_bytes, lemma_pow256_32};
use vstd::prelude::*;

verus! {

/// The length of a scalar, in bytes.
pub const SCALAR_LEN: usize = 32;

/// The length of a compressed point of the first group, in bytes.
pub const G1_LEN: usize = 48;

/// The length of a compressed point of the second group, in bytes.
pub const G2_LEN: usize = 96;

/// The order of the scalar field, which is the order of both groups.
pub open spec fn scalar_field_order() -> nat {
    52435875175126190479447740508185965837690552500527637822603658699938581184513nat
}

/// The point of the first group that `G1Affine::deserialize_compressed`
/// reads from the front of `bytes`, taken by its compressed encoding;
/// `None` where it reads none.
pub uninterp spec fn bls_g1_decode(bytes: Seq<u8>) -> Option<Seq<u8>>;

/// The point of the second group that `G2Affine::deserialize_compressed`
/// reads from the front of `bytes`, taken by its compressed encoding;
/// `None` where it reads none.
pub uninterp spec fn bls_g2_decode(bytes: Seq<u8>) -> Option<Seq<u8>>;

/// The generator of the second group multiplied by a scalar.
pub uninterp spec fn bls_g2_generator_mul(scalar: Seq<u8>) -> Seq<u8>;

/// The point of the first group to which `input` hashes under the domain
/// separation tag `dst`: SHA-256 expands the input to two field elements,
/// the Wahby-Boneh map sends them to the curve, and the cofactor is cleared.
pub uninterp spec fn bls_hash_to_g1(dst: Seq<u8>, input: Seq<u8>) -> Seq<u8>;

/// A point of the first group multiplied by a scalar.
pub uninterp spec fn bls_g1_mul(point: Seq<u8>, scalar: Seq<u8>) -> Seq<u8>;

/// Whether the product of the pairing of the negated `output` with the
/// generator of the second group and the pairing of `hashed` with `pk` is
/// the unit of the target group.
pub uninterp spec fn bls_pairing_check(output: Seq<u8>, hashed: Seq<u8>, pk: Seq<u8>) -> bool;

/// Whether `bytes` is the canonical encoding of a scalar: 32 bytes whose
/// little-endian value is below the order of the scalar field.
pub open spec fn is_fr(bytes: Seq<u8>) -> bool {
    bytes.len() == SCALAR_LEN && le_value(bytes) < scalar_field_order()
}

/// Whether `bytes` is the canonical encoding of a point of the first
/// group: 48 bytes that decode to a point whose encoding they are.
pub open spec fn is_g1(bytes: Seq<u8>) -> bool {
    bytes.len() == G1_LEN && bls_g1_decode(bytes) == Some(bytes)
}

/// Whether `bytes` is the canonical encoding of a point of the second
/// group: 96 bytes that decode to a point whose encoding they are.
pub open spec fn is_g2(bytes: Seq<u8>) -> bool {
    bytes.len() == G2_LEN && bls_g2_decode(bytes) == Some(bytes)
}

/// The scalar that a seed stands for: its little-endian value reduced
/// modulo the order of the scalar field.
pub open spec fn fr_from_seed(seed: Seq<u8>) -> Seq<u8> {
    le_bytes(le_value(seed) % scalar_field_order(), 32)
}

/// Every seed stands for a canonical scalar.
pub proof fn lemma_fr_from_seed_is_fr(seed: Seq<u8>)
    ensures
        is_fr(fr_from_seed(seed)),
{
    let n = le_value(seed) % scalar_field_order();
    lemma_pow256_32();
    lemma_le_bytes_len(n, 32);
    lemma_le_value_of_le_bytes(n, 32);
}

/// Calls `Fr::deserialize_compressed`, which accepts exactly the 32-byte
/// strings whose little-endian value is below the order of the scalar field.
#[verifier::external_body]
pub(crate) fn fr_is_canonical(bytes: &[u8]) -> (canonical: bool)
    requires
        bytes@.len() == SCALAR_LEN,
    ensures
        canonical == (le_value(bytes@) < scalar_field_order()),
{
    <ark_bls12_381::Fr as ark_serialize::CanonicalDeserialize>::deserialize_compressed(
        bytes,
    ).is_ok()
}

/// Calls `Fr::from_le_bytes_mod_order`, which reads a little-endian
/// integer and reduces it modulo the order of the scalar field, and returns
/// the 32 bytes of the reduced scalar.
#[verifier::external_body]
pub(crate) fn fr_reduce_wide(seed: &[u8; 64]) -> (scalar: Vec<u8>)
    ensures
        scalar@ == fr_from_seed(seed@),
{
    let s = <ark_bls12_381::Fr as ark_ff::PrimeField>::from_le_bytes_mod_order(seed);
    let mut out = Vec::new();
    ark_serialize::CanonicalSerialize::serialize_compressed(&s, &mut out).unwrap();
    out
}

/// Calls `G1Affine::deserialize_compressed`, which checks that the point
/// is on the curve and in the group, and hands the point back in
/// compressed form. The bytes that come back are a canonical encoding.
#[verifier::external_body]
pub(crate) fn g1_decode(bytes: &[u8]) -> (point: Option<Vec<u8>>)
    ensures
        match point {
            Some(p) => bls_g1_decode(bytes@) == Some(p@) && is_g1(p@),
            None => bls_g1_decode(bytes@) is None,
        },
{
    let decoded =
        <ark_bls12_381::G1Affine as ark_serialize::CanonicalDeserialize>::deserialize_compressed(
        bytes,
    );
    match decoded {
        Ok(p) => {
            let mut out = Vec::new();
            ark_serialize::CanonicalSerialize::serialize_compressed(&p, &mut out).unwrap();
            Some(out)
        },
        Err(_) => None,
    }
}

/// Calls `G2Affine::deserialize_compressed`, which checks that the point
/// is on the curve and in the group, and hands the point back in
/// compressed form. The bytes that come back are a canonical encoding.
#[verifier::external_body]
pub(crate) fn g2_decode(bytes: &[u8]) -> (point: Option<Vec<u8>>)
    ensures
        match point {
            Some(p) => bls_g2_decode(bytes@) == Some(p@) && is_g2(p@),
            None => bls_g2_decode(bytes@) is None,
        },
{
    let decoded =
        <ark_bls12_381::G2Affine as ark_serialize::CanonicalDeserialize>::deserialize_compressed(
        bytes,
    );
    match decoded {
        Ok(p) => {
            let mut out = Vec::new();
            ark_serialize::CanonicalSerialize::serialize_compressed(&p, &mut out).unwrap();
            Some(out)
        },
        Err(_) => None,
    }
}

/// Multiplies the generator of the second group by a scalar. The product
/// is a point of that group in canonical encoding.
#[verifier::external_body]
pub(crate) fn g2_generator_mul(scalar: &[u8]) -> (product: Vec<u8>)
    requires
        is_fr(scalar@),
    ensures
        product@ == bls_g2_generator_mul(scalar@),
        is_g2(product@),
{
    let s = <ark_bls12_381::Fr as ark_serialize::CanonicalDeserialize>::deserialize_compressed(
        scalar,
    ).unwrap();
    let product = <ark_bls12_381::G2Projective as ark_ec::Group>::generator() * s;
    let mut out = Vec::new();
    ark_serialize::CanonicalSerialize::serialize_compressed(&product, &mut out).unwrap();
    out
}

/// Hashes `input` to the first group with a `MapToCurveBasedHasher` made
/// for `dst`. The hash is a point of that group in canonical encoding.
#[verifier::external_body]
pub(crate) fn g1_hash(dst: &[u8], input: &[u8]) -> (hashed: Vec<u8>)
    ensures
        hashed@ == bls_hash_to_g1(dst@, input@),
        is_g1(hashed@),
{
    let mapper = <ark_ec::hashing::map_to_curve_hasher::MapToCurveBasedHasher<
        ark_ec::short_weierstrass::Projective<ark_bls12_381::g1::Config>,
        ark_ff::fields::field_hashers::DefaultFieldHasher<sha2::Sha256, 128>,
        ark_ec::hashing::curve_maps::wb::WBMap<ark_bls12_381::g1::Config>,
    > as ark_ec::hashing::HashToCurve<ark_bls12_381::G1Projective>>::new(dst).unwrap();
    let hashed = ark_ec::hashing::HashToCurve::hash(&mapper, input).unwrap();
    let mut out = Vec::new();
    ark_serialize::CanonicalSerialize::serialize_compressed(&hashed, &mut out).unwrap();
    out
}

/// Multiplies a point of the first group by a scalar. The product is a
/// point of that group in canonical encoding.
#[verifier::external_body]
pub(crate) fn g1_mul(point: &[u8], scalar: &[u8]) -> (product: Vec<u8>)
    requires
        is_g1(point@),
        is_fr(scalar@),
    ensures
        product@ == bls_g1_mul(point@, scalar@),
        is_g1(product@),
{
    let p = <ark_bls12_381::G1Affine as ark_serialize::CanonicalDeserialize>::deserialize_compressed(
        point,
    ).unwrap();
    let s = <ark_bls12_381::Fr as ark_serialize::CanonicalDeserialize>::deserialize_compressed(
        scalar,
    ).unwrap();
    let mut out = Vec::new();
    ark_serialize::CanonicalSerialize::serialize_compressed(&(p * s), &mut out).unwrap();
    out
}

/// Calls `Bls12_381::multi_pairing` on the negated `output` with the
/// generator of the second group and on `hashed` with `pk`, and compares
/// the product with the unit of the target field.
///
/// The pairing is bilinear and not degenerate, and both groups have the
/// prime order of the scalar field. So where `pk` is the generator
/// multiplied by a scalar, the check holds exactly when `output` is
/// `hashed` multiplied by that scalar.
#[verifier::external_body]
pub(crate) fn pairing_check(output: &[u8], hashed: &[u8], pk: &[u8]) -> (holds: bool)
    requires
        is_g1(output@),
        is_g1(hashed@),
        is_g2(pk@),
    ensures
        holds == bls_pairing_check(output@, hashed@, pk@),
        forall|sk: Seq<u8>|
            is_fr(sk) && pk@ == #[trigger] bls_g2_generator_mul(sk) ==> (holds <==> output@
                == bls_g1_mul(hashed@, sk)),
{
    let o = <ark_bls12_381::G1Affine as ark_serialize::CanonicalDeserialize>::deserialize_compressed(
        output,
    ).unwrap();
    let h = <ark_bls12_381::G1Affine as ark_serialize::CanonicalDeserialize>::deserialize_compressed(
        hashed,
    ).unwrap();
    let k = <ark_bls12_381::G2Affine as ark_serialize::CanonicalDeserialize>::deserialize_compressed(
        pk,
    ).unwrap();
    let g = <ark_bls12_381::G2Affine as ark_ec::AffineRepr>::generator();
    let product = <ark_bls12_381::Bls12_381 as ark_ec::pairing::Pairing>::multi_pairing([-o, h], [g, k]);
    product.0 == <ark_bls12_381::Fq12 as ark_ff::Field>::ONE
}

} // verus!
