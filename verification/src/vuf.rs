//! Verifiable unpredictable functions: the capability that every scheme of
//! this kind offers, whichever scheme the caller picks by name.

use crate::error::{bytes_result, SchemeError};
use crate::random::RandomSource;
use vstd::prelude::*;

pub mod bls12381;
pub mod scheme0;

verus! {

/// The byte strings behind the result of an evaluation: the output and the
/// proof.
pub open spec fn evaluation_result(r: Result<(Vec<u8>, Vec<u8>), SchemeError>) -> Result<
    (Seq<u8>, Seq<u8>),
    SchemeError,
> {
    match r {
        Ok(pair) => Ok((pair.0@, pair.1@)),
        Err(e) => Err(e),
    }
}

/// A verifiable unpredictable function on byte strings.
///
/// The holder of a secret key evaluates the function on any input; whoever
/// holds the matching public key checks an output without learning the
/// secret key. A scheme says which keys match, which byte strings encode
/// an output, and what each operation returns; the contract of `verify`
/// then promises that it accepts the output of `eval`, and no other.
pub trait VUF {
    /// The name under which the scheme is recorded beside its outputs.
    spec fn spec_scheme_name() -> Seq<char>;

    /// Whether `sk` and `pk` are the valid encodings of a secret key and of
    /// its public key.
    spec fn is_key_pair(sk: Seq<u8>, pk: Seq<u8>) -> bool;

    /// Whether `output` is the valid encoding of an output.
    spec fn is_output(output: Seq<u8>) -> bool;

    /// What `pk_from_sk` returns.
    spec fn spec_pk_from_sk(sk: Seq<u8>) -> Result<Seq<u8>, SchemeError>;

    /// What `eval` returns: the output and the proof.
    spec fn spec_eval(sk: Seq<u8>, input: Seq<u8>) -> Result<(Seq<u8>, Seq<u8>), SchemeError>;

    /// What `verify` returns.
    spec fn spec_verify(pk: Seq<u8>, input: Seq<u8>, output: Seq<u8>, proof: Seq<u8>) -> Result<
        (),
        SchemeError,
    >;

    /// The name under which the scheme is recorded beside its outputs.
    fn scheme_name() -> (name: String)
        ensures
            name@ == Self::spec_scheme_name(),
    ;

    /// Generates a key pair `(sk, pk)` from the randomness of `rng`.
    ///
    /// Consistency: `pk` is what `pk_from_sk` derives from `sk`.
    fn setup<R: RandomSource>(rng: &mut R) -> (keys: (Vec<u8>, Vec<u8>))
        ensures
            Self::is_key_pair(keys.0@, keys.1@),
            Self::spec_pk_from_sk(keys.0@) == Ok::<Seq<u8>, SchemeError>(keys.1@),
    ;

    /// Derives the public key of `sk`. The result is a function of `sk` alone.
    fn pk_from_sk(sk: &[u8]) -> (pk: Result<Vec<u8>, SchemeError>)
        ensures
            bytes_result(pk) == Self::spec_pk_from_sk(sk@),
            pk matches Ok(p) ==> Self::is_key_pair(sk@, p@),
    ;

    /// Evaluates the function on `input` with `sk`; returns the output and
    /// its proof.
    ///
    /// Determinism: the result is a function of the two arguments alone.
    fn eval(sk: &[u8], input: &[u8]) -> (evaluation: Result<(Vec<u8>, Vec<u8>), SchemeError>)
        ensures
            evaluation_result(evaluation) == Self::spec_eval(sk@, input@),
    ;

    /// Checks `output` and `proof` against `pk` and `input`.
    ///
    /// Soundness: for a public key and an output in valid encoding, the
    /// check succeeds if and only if `output` and `proof` are what `eval`
    /// returns on `input` with the secret key of `pk`.
    fn verify(pk: &[u8], input: &[u8], output: &[u8], proof: &[u8]) -> (verdict: Result<
        (),
        SchemeError,
    >)
        ensures
            verdict == Self::spec_verify(pk@, input@, output@, proof@),
            forall|sk: Seq<u8>| #[trigger]
                Self::is_key_pair(sk, pk@) && Self::is_output(output@) ==> (verdict is Ok
                    <==> Self::spec_eval(sk, input@) == Ok::<(Seq<u8>, Seq<u8>), SchemeError>(
                    (output@, proof@),
                )),
    ;
}

/// Determinism of evaluation: two results that `eval` may return for one
/// secret key and one input hold the same output and the same proof, or
/// the same error.
pub proof fn lemma_eval_deterministic<V: VUF>(
    sk: Seq<u8>,
    input: Seq<u8>,
    first: Result<(Vec<u8>, Vec<u8>), SchemeError>,
    second: Result<(Vec<u8>, Vec<u8>), SchemeError>,
)
    requires
        evaluation_result(first) == V::spec_eval(sk, input),
        evaluation_result(second) == V::spec_eval(sk, input),
    ensures
        evaluation_result(first) == evaluation_result(second),
{
}

} // verus!
