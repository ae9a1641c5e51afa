//! Scheme0: the function value is the hash of the input, a point of the
//! first group of BLS12-381, multiplied by the secret key; a pairing
//! equation checks it against the public key.
//!
//! A secret key is a canonical 32-byte scalar. A public key is the
//! generator of the second group multiplied by the secret key, a canonical
//! compressed point of 96 bytes. An output is a canonical compressed point
//! of the first group, 48 bytes. The proof is always empty.

use crate::bytes::bytes_equal;
use crate::error::{ErrorKind, SchemeError};
use crate::random::{random_array, RandomSource};
use crate::vuf::bls12381::{
    bls_g1_mul, bls_g2_generator_mul, bls_hash_to_g1, bls_pairing_check, fr_from_seed,
    fr_is_canonical, fr_reduce_wide, g1_decode, g1_hash, g1_mul, g2_decode, g2_generator_mul,
    is_fr, is_g1, is_g2, lemma_fr_from_seed_is_fr, pairing_check, G1_LEN, G2_LEN, SCALAR_LEN,
};
use crate::vuf::VUF;
use vstd::prelude::*;
use vstd::string::StringSliceAdditionalSpecFns;

verus! {

/// The verifiable unpredictable function named `Scheme0`.
pub struct Scheme {}

/// The label that separates this scheme's hash to the curve from every other.
pub open spec fn spec_dst() -> Seq<u8> {
    "APTOS_OIDB_VUF_SCHEME0_DST".spec_bytes()
}

/// The point of the first group to which `input` hashes.
pub open spec fn spec_hash_to_g1(input: Seq<u8>) -> Seq<u8> {
    bls_hash_to_g1(spec_dst(), input)
}

/// The key pair that a seed stands for: the scalar of the seed, and the
/// generator of the second group multiplied by it.
pub open spec fn spec_setup(seed: Seq<u8>) -> (Seq<u8>, Seq<u8>) {
    (fr_from_seed(seed), bls_g2_generator_mul(fr_from_seed(seed)))
}

/// What `pk_from_sk` returns.
pub open spec fn spec_pk_from_sk(sk: Seq<u8>) -> Result<Seq<u8>, SchemeError> {
    if sk.len() != SCALAR_LEN {
        Err(SchemeError::PkFromSkSkLength)
    } else if !is_fr(sk) {
        Err(SchemeError::PkFromSkSkScalar)
    } else {
        Ok(bls_g2_generator_mul(sk))
    }
}

/// What `eval` returns: the output, and the empty proof.
pub open spec fn spec_eval(sk: Seq<u8>, input: Seq<u8>) -> Result<(Seq<u8>, Seq<u8>), SchemeError> {
    if sk.len() != SCALAR_LEN {
        Err(SchemeError::EvalSkLength)
    } else if !is_fr(sk) {
        Err(SchemeError::EvalSkScalar)
    } else {
        Ok((bls_g1_mul(spec_hash_to_g1(input), sk), Seq::<u8>::empty()))
    }
}

/// What `verify` returns.
pub open spec fn spec_verify(pk: Seq<u8>, input: Seq<u8>, output: Seq<u8>, proof: Seq<u8>) -> Result<
    (),
    SchemeError,
> {
    if proof.len() != 0 {
        Err(SchemeError::VerifyProof)
    } else if pk.len() != G2_LEN {
        Err(SchemeError::VerifyPkLength)
    } else if !is_g2(pk) {
        Err(SchemeError::VerifyPkElement)
    } else if output.len() != G1_LEN {
        Err(SchemeError::VerifyOutputLength)
    } else if !is_g1(output) {
        Err(SchemeError::VerifyOutputElement)
    } else if !bls_pairing_check(output, spec_hash_to_g1(input), pk) {
        Err(SchemeError::VerifyFinalCheck)
    } else {
        Ok(())
    }
}

impl Scheme {
    /// The label that separates this scheme's hash to the curve from every other.
    pub fn dst() -> (label: &'static [u8])
        ensures
            label@ == spec_dst(),
    {
        "APTOS_OIDB_VUF_SCHEME0_DST".as_bytes()
    }

    /// Hashes `input` to a point of the first group, in canonical encoding.
    pub fn hash_to_g1(input: &[u8]) -> (hashed: Vec<u8>)
        ensures
            hashed@ == spec_hash_to_g1(input@),
            is_g1(hashed@),
    {
        g1_hash(Self::dst(), input)
    }

    /// The key pair `(sk, pk)` that `seed` stands for.
    pub fn setup_from_seed(seed: &[u8; 64]) -> (keys: (Vec<u8>, Vec<u8>))
        ensures
            (keys.0@, keys.1@) == spec_setup(seed@),
            is_fr(keys.0@),
            is_g2(keys.1@),
    {
        let sk = fr_reduce_wide(seed);
        proof {
            lemma_fr_from_seed_is_fr(seed@);
        }
        let pk = g2_generator_mul(sk.as_slice());
        (sk, pk)
    }
}

impl VUF for Scheme {
    open spec fn spec_scheme_name() -> Seq<char> {
        "Scheme0"@
    }

    open spec fn is_key_pair(sk: Seq<u8>, pk: Seq<u8>) -> bool {
        is_fr(sk) && is_g2(pk) && pk == bls_g2_generator_mul(sk)
    }

    open spec fn is_output(output: Seq<u8>) -> bool {
        is_g1(output)
    }

    open spec fn spec_pk_from_sk(sk: Seq<u8>) -> Result<Seq<u8>, SchemeError> {
        spec_pk_from_sk(sk)
    }

    open spec fn spec_eval(sk: Seq<u8>, input: Seq<u8>) -> Result<(Seq<u8>, Seq<u8>), SchemeError> {
        spec_eval(sk, input)
    }

    open spec fn spec_verify(
        pk: Seq<u8>,
        input: Seq<u8>,
        output: Seq<u8>,
        proof: Seq<u8>,
    ) -> Result<(), SchemeError> {
        spec_verify(pk, input, output, proof)
    }

    fn scheme_name() -> (name: String) {
        "Scheme0".to_owned()
    }

    /// The secret key is a scalar drawn from `rng`, the public key the
    /// generator of the second group multiplied by it.
    fn setup<R: RandomSource>(rng: &mut R) -> (keys: (Vec<u8>, Vec<u8>))
        ensures
            exists|seed: Seq<u8>| seed.len() == 64 && (keys.0@, keys.1@) == spec_setup(seed),
            keys.0@.len() == SCALAR_LEN,
            keys.1@.len() == G2_LEN,
    {
        let seed: [u8; 64] = random_array::<R, 64>(rng);
        let keys = Self::setup_from_seed(&seed);
        assert(seed@.len() == 64 && (keys.0@, keys.1@) == spec_setup(seed@));
        keys
    }

    /// The secret key is refused unless it is a canonical scalar of 32
    /// bytes. A public key has 96 bytes.
    fn pk_from_sk(sk: &[u8]) -> (pk: Result<Vec<u8>, SchemeError>)
        ensures
            pk matches Ok(p) ==> p@.len() == G2_LEN,
    {
        if sk.len() != SCALAR_LEN {
            return Err(SchemeError::PkFromSkSkLength);
        }
        if !fr_is_canonical(sk) {
            return Err(SchemeError::PkFromSkSkScalar);
        }
        Ok(g2_generator_mul(sk))
    }

    /// The secret key is refused unless it is a canonical scalar of 32
    /// bytes. An output has 48 bytes and is a valid encoding; the proof is
    /// empty.
    fn eval(sk: &[u8], input: &[u8]) -> (evaluation: Result<(Vec<u8>, Vec<u8>), SchemeError>)
        ensures
            evaluation matches Ok(pair) ==> is_g1(pair.0@) && pair.1@.len() == 0,
    {
        if sk.len() != SCALAR_LEN {
            return Err(SchemeError::EvalSkLength);
        }
        if !fr_is_canonical(sk) {
            return Err(SchemeError::EvalSkScalar);
        }
        let input_g1 = Self::hash_to_g1(input);
        let output = g1_mul(input_g1.as_slice(), sk);
        let proof: Vec<u8> = Vec::new();
        assert(proof@ =~= Seq::<u8>::empty());
        Ok((output, proof))
    }

    /// A proof that is not empty is an argument mismatch, whatever the
    /// other arguments are. The checks are made in this order: that the
    /// proof is empty, the
    /// length of the public key, that it is a canonical point, the length
    /// of the output, that it is a canonical point, and the pairing
    /// equation.
    fn verify(pk: &[u8], input: &[u8], output: &[u8], proof: &[u8]) -> (verdict: Result<
        (),
        SchemeError,
    >)
        ensures
            proof@.len() != 0 ==> verdict == Err::<(), SchemeError>(SchemeError::VerifyProof),
            proof@.len() != 0 ==> (verdict matches Err(e) && e.spec_kind()
                == ErrorKind::ArgumentMismatch),
    {
        if proof.len() != 0 {
            return Err(SchemeError::VerifyProof);
        }
        if pk.len() != G2_LEN {
            return Err(SchemeError::VerifyPkLength);
        }
        let pk_canonical = match g2_decode(pk) {
            Some(p) => bytes_equal(p.as_slice(), pk),
            None => false,
        };
        if !pk_canonical {
            return Err(SchemeError::VerifyPkElement);
        }
        if output.len() != G1_LEN {
            return Err(SchemeError::VerifyOutputLength);
        }
        let output_canonical = match g1_decode(output) {
            Some(p) => bytes_equal(p.as_slice(), output),
            None => false,
        };
        if !output_canonical {
            return Err(SchemeError::VerifyOutputElement);
        }
        let input_g1 = Self::hash_to_g1(input);
        if !pairing_check(output, input_g1.as_slice(), pk) {
            return Err(SchemeError::VerifyFinalCheck);
        }
        assert(proof@ =~= Seq::<u8>::empty());
        Ok(())
    }
}

} // verus!
