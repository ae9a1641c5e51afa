//! The group of Curve25519 in Edwards form, through `curve25519-dalek`.
//!
//! A point is spoken of by its compressed 32-byte encoding, a scalar by its
//! canonical 32-byte little-endian encoding. What the outside crate computes
//! on points is named here and not defined; what it computes on scalars is
//! stated outright.

use crate::bytes::{bytes_equal, copy_range, le_bytes, le_value, lemma_le_bytes_len, lemma_le_value_of_le_bytes, lemma_pow256_32};
use crate::elgamal::ElGamalFriendlyGroup;
use vstd::prelude::*;

verus! {

/// The order of the Ed25519 base point:
/// 2^252 + 27742317777372353535851937790883648493.
pub open spec fn group_order() -> nat {
    7237005577332262213973186563042994240857116359379907606001950938285454250989nat
}

/// The point that `CompressedEdwardsY::decompress` finds in 32 bytes, taken
/// by its compressed encoding; `None` where it finds none.
pub uninterp spec fn edwards_decompress(bytes: Seq<u8>) -> Option<Seq<u8>>;

/// The sum of two points, as `EdwardsPoint` addition computes it.
pub uninterp spec fn edwards_add(a: Seq<u8>, b: Seq<u8>) -> Seq<u8>;

/// The difference of two points, as `EdwardsPoint` subtraction computes it.
pub uninterp spec fn edwards_sub(a: Seq<u8>, b: Seq<u8>) -> Seq<u8>;

/// A point multiplied by a scalar, as `EdwardsPoint` multiplication computes it.
pub uninterp spec fn edwards_mul(point: Seq<u8>, scalar: Seq<u8>) -> Seq<u8>;

/// The Ed25519 base point multiplied by a scalar, as the base point table
/// computes it.
pub uninterp spec fn edwards_basepoint_mul(scalar: Seq<u8>) -> Seq<u8>;

/// Whether `bytes` is the canonical encoding of a scalar: 32 bytes whose
/// little-endian value is below the group order.
pub open spec fn is_scalar(bytes: Seq<u8>) -> bool {
    bytes.len() == 32 && le_value(bytes) < group_order()
}

/// Whether `bytes` is the canonical encoding of a point: 32 bytes that
/// decompress to a point whose compressed encoding they are.
pub open spec fn is_point(bytes: Seq<u8>) -> bool {
    bytes.len() == 32 && edwards_decompress(bytes) == Some(bytes)
}

/// The scalar that a seed stands for: its little-endian value reduced
/// modulo the group order.
pub open spec fn scalar_from_seed(seed: Seq<u8>) -> Seq<u8> {
    le_bytes(le_value(seed) % group_order(), 32)
}

/// Every seed stands for a canonical scalar.
pub proof fn lemma_scalar_from_seed_is_scalar(seed: Seq<u8>)
    ensures
        is_scalar(scalar_from_seed(seed)),
{
    let n = le_value(seed) % group_order();
    lemma_pow256_32();
    lemma_le_bytes_len(n, 32);
    lemma_le_value_of_le_bytes(n, 32);
}

/// Calls `Scalar::from_canonical_bytes`, which accepts exactly the 32-byte
/// strings whose little-endian value is below the group order.
#[verifier::external_body]
fn scalar_is_canonical(bytes: &[u8]) -> (canonical: bool)
    requires
        bytes@.len() == 32,
    ensures
        canonical == (le_value(bytes@) < group_order()),
{
    let array: [u8; 32] = bytes.try_into().unwrap();
    curve25519_dalek::scalar::Scalar::from_canonical_bytes(array).is_some()
}

/// Calls `Scalar::from_bytes_mod_order_wide`, which reduces a 512-bit
/// little-endian integer modulo the group order, and returns the 32 bytes
/// of the reduced scalar.
#[verifier::external_body]
fn scalar_reduce_wide(seed: &[u8; 64]) -> (scalar: Vec<u8>)
    ensures
        scalar@ == scalar_from_seed(seed@),
{
    curve25519_dalek::scalar::Scalar::from_bytes_mod_order_wide(seed).to_bytes().to_vec()
}

/// Calls `CompressedEdwardsY::decompress` and hands the point back in
/// compressed form. The bytes that come back are a canonical encoding:
/// decompressed again, they give the same bytes.
#[verifier::external_body]
fn point_decompress(bytes: &[u8]) -> (point: Option<Vec<u8>>)
    requires
        bytes@.len() == 32,
    ensures
        match point {
            Some(p) => edwards_decompress(bytes@) == Some(p@) && is_point(p@),
            None => edwards_decompress(bytes@) is None,
        },
{
    let compressed = curve25519_dalek::edwards::CompressedEdwardsY::from_slice(bytes);
    match compressed.decompress() {
        Some(p) => Some(p.compress().to_bytes().to_vec()),
        None => None,
    }
}

/// Multiplies the Ed25519 base point table by a scalar. The product is a
/// point in canonical encoding.
#[verifier::external_body]
fn point_basepoint_mul(scalar: &[u8]) -> (product: Vec<u8>)
    requires
        is_scalar(scalar@),
    ensures
        product@ == edwards_basepoint_mul(scalar@),
        is_point(product@),
{
    let array: [u8; 32] = scalar.try_into().unwrap();
    let s = curve25519_dalek::scalar::Scalar::from_canonical_bytes(array).unwrap();
    let product = &curve25519_dalek::constants::ED25519_BASEPOINT_TABLE * &s;
    product.compress().to_bytes().to_vec()
}

/// Adds two `EdwardsPoint`s. The sum is a point in canonical encoding, and,
/// the points forming a group, subtracting `b` from it gives `a` back.
#[verifier::external_body]
fn point_add(a: &[u8], b: &[u8]) -> (sum: Vec<u8>)
    requires
        is_point(a@),
        is_point(b@),
    ensures
        sum@ == edwards_add(a@, b@),
        is_point(sum@),
        edwards_sub(sum@, b@) == a@,
{
    let a = curve25519_dalek::edwards::CompressedEdwardsY::from_slice(a).decompress().unwrap();
    let b = curve25519_dalek::edwards::CompressedEdwardsY::from_slice(b).decompress().unwrap();
    (&a + &b).compress().to_bytes().to_vec()
}

/// Subtracts one `EdwardsPoint` from another. The difference is a point in
/// canonical encoding.
#[verifier::external_body]
fn point_sub(a: &[u8], b: &[u8]) -> (difference: Vec<u8>)
    requires
        is_point(a@),
        is_point(b@),
    ensures
        difference@ == edwards_sub(a@, b@),
        is_point(difference@),
{
    let a = curve25519_dalek::edwards::CompressedEdwardsY::from_slice(a).decompress().unwrap();
    let b = curve25519_dalek::edwards::CompressedEdwardsY::from_slice(b).decompress().unwrap();
    (&a - &b).compress().to_bytes().to_vec()
}

/// Multiplies an `EdwardsPoint` by a `Scalar`. The product is a point in
/// canonical encoding. Multiplication by scalars being repeated addition in
/// a commutative group, a point that is `t` times the base point gives the
/// same product as `scalar` times the base point multiplied by `t`.
#[verifier::external_body]
fn point_mul(point: &[u8], scalar: &[u8]) -> (product: Vec<u8>)
    requires
        is_point(point@),
        is_scalar(scalar@),
    ensures
        product@ == edwards_mul(point@, scalar@),
        is_point(product@),
        forall|t: Seq<u8>|
            is_scalar(t) && point@ == #[trigger] edwards_basepoint_mul(t) ==> product@
                == edwards_mul(edwards_basepoint_mul(scalar@), t),
{
    let p = curve25519_dalek::edwards::CompressedEdwardsY::from_slice(point).decompress().unwrap();
    let array: [u8; 32] = scalar.try_into().unwrap();
    let s = curve25519_dalek::scalar::Scalar::from_canonical_bytes(array).unwrap();
    (&p * &s).compress().to_bytes().to_vec()
}

/// A scalar of Curve25519: an integer below the group order.
pub struct Scalar {
    bytes: Vec<u8>,
}

/// A point of Curve25519.
pub struct Point {
    bytes: Vec<u8>,
}

impl View for Scalar {
    type V = Seq<u8>;

    /// The canonical encoding of the scalar.
    closed spec fn view(&self) -> Seq<u8> {
        self.bytes@
    }
}

impl View for Point {
    type V = Seq<u8>;

    /// The compressed encoding of the point.
    closed spec fn view(&self) -> Seq<u8> {
        self.bytes@
    }
}

impl Scalar {
    #[verifier::type_invariant]
    spec fn well_formed(&self) -> bool {
        is_scalar(self.bytes@)
    }
}

impl Point {
    #[verifier::type_invariant]
    spec fn well_formed(&self) -> bool {
        is_point(self.bytes@)
    }
}

/// Curve25519, with the Ed25519 base point as its generator.
pub struct Curve25519 {}

impl ElGamalFriendlyGroup for Curve25519 {
    type Scalar = Scalar;

    type Element = Point;

    open spec fn is_scalar(bytes: Seq<u8>) -> bool {
        is_scalar(bytes)
    }

    open spec fn is_element(bytes: Seq<u8>) -> bool {
        is_point(bytes)
    }

    open spec fn spec_scalar_from_seed(seed: Seq<u8>) -> Seq<u8> {
        scalar_from_seed(seed)
    }

    open spec fn spec_generator_mul(scalar: Seq<u8>) -> Seq<u8> {
        edwards_basepoint_mul(scalar)
    }

    open spec fn spec_add(a: Seq<u8>, b: Seq<u8>) -> Seq<u8> {
        edwards_add(a, b)
    }

    open spec fn spec_sub(a: Seq<u8>, b: Seq<u8>) -> Seq<u8> {
        edwards_sub(a, b)
    }

    open spec fn spec_mul(element: Seq<u8>, scalar: Seq<u8>) -> Seq<u8> {
        edwards_mul(element, scalar)
    }

    fn scalar_from_seed(seed: &[u8; 64]) -> (scalar: Scalar)
        ensures
            scalar@ == scalar_from_seed(seed@),
    {
        let bytes = scalar_reduce_wide(seed);
        proof {
            lemma_scalar_from_seed_is_scalar(seed@);
        }
        Scalar { bytes }
    }

    fn scalar_from_bytes(bytes: &[u8]) -> (scalar: Option<Scalar>)
        ensures
            scalar matches Some(s) ==> s@ == bytes@,
    {
        if bytes.len() == 32 && scalar_is_canonical(bytes) {
            let copy = copy_range(bytes, 0, 32);
            assert(copy@ =~= bytes@);
            Some(Scalar { bytes: copy })
        } else {
            None
        }
    }

    fn element_from_bytes(bytes: &[u8]) -> (element: Option<Point>)
        ensures
            element matches Some(e) ==> e@ == bytes@,
    {
        if bytes.len() != 32 {
            return None;
        }
        match point_decompress(bytes) {
            Some(canonical) => {
                if bytes_equal(canonical.as_slice(), bytes) {
                    Some(Point { bytes: canonical })
                } else {
                    None
                }
            },
            None => None,
        }
    }

    fn scalar_to_bytes(scalar: &Scalar) -> (bytes: Vec<u8>)
        ensures
            bytes@ == scalar@,
    {
        proof {
            use_type_invariant(scalar);
        }
        scalar.bytes.clone()
    }

    fn element_to_bytes(element: &Point) -> (bytes: Vec<u8>)
        ensures
            bytes@ == element@,
    {
        proof {
            use_type_invariant(element);
        }
        element.bytes.clone()
    }

    fn generator_mul(scalar: &Scalar) -> (product: Point)
        ensures
            product@ == edwards_basepoint_mul(scalar@),
    {
        proof {
            use_type_invariant(scalar);
        }
        Point { bytes: point_basepoint_mul(scalar.bytes.as_slice()) }
    }

    fn add(a: &Point, b: &Point) -> (sum: Point)
        ensures
            sum@ == edwards_add(a@, b@),
    {
        proof {
            use_type_invariant(a);
            use_type_invariant(b);
        }
        Point { bytes: point_add(a.bytes.as_slice(), b.bytes.as_slice()) }
    }

    fn sub(a: &Point, b: &Point) -> (difference: Point)
        ensures
            difference@ == edwards_sub(a@, b@),
    {
        proof {
            use_type_invariant(a);
            use_type_invariant(b);
        }
        Point { bytes: point_sub(a.bytes.as_slice(), b.bytes.as_slice()) }
    }

    fn mul(element: &Point, scalar: &Scalar) -> (product: Point)
        ensures
            product@ == edwards_mul(element@, scalar@),
    {
        proof {
            use_type_invariant(element);
            use_type_invariant(scalar);
        }
        Point { bytes: point_mul(element.bytes.as_slice(), scalar.bytes.as_slice()) }
    }
}

} // verus!
