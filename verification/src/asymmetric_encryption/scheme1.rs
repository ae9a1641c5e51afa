//! Scheme1: ElGamal over Curve25519 carries a random group element, the
//! SHA3-256 hash of that element keys AES-256-GCM, and AES-256-GCM carries
//! the message.
//!
//! A ciphertext is the concatenation of
//!
//! | offset | length   | field                                   |
//! |--------|----------|-----------------------------------------|
//! | 0      | 32       | compressed point `c0`                   |
//! | 32     | 32       | compressed point `c1`                   |
//! | 64     | 12       | AES-256-GCM nonce                       |
//! | 76     | variable | AES-256-GCM ciphertext and 16-byte tag  |
//!
//! A secret key is a canonical 32-byte scalar, a public key a canonical
//! compressed point of 32 bytes.

use crate::asymmetric_encryption::AsymmetricEncryption;
use crate::bytes::append_bytes;
use crate::elgamal;
use crate::elgamal::curve25519::{
    edwards_basepoint_mul, is_point, is_scalar, scalar_from_seed, Curve25519, Point,
};
use crate::elgamal::ElGamalFriendlyGroup;
use crate::error::{bytes_result, ErrorKind, SchemeError};
use crate::random::{random_array, RandomSource};
use crate::symmetric::{
    aes256gcm_decrypt, aes256gcm_encrypt, aes256gcm_open, aes256gcm_seal, max_message_len,
    sha3_256, sha3_256_digest, TAG_LEN,
};
use vstd::prelude::*;
use vstd::slice::slice_subrange;
use vstd::string::StringSliceAdditionalSpecFns;

verus! {

/// The length of a compressed point, in bytes.
pub const ELEMENT_LEN: usize = 32;

/// The length of the ciphertext header: two points and the nonce.
pub const HEADER_LEN: usize = 76;

/// The hybrid encryption scheme named `Scheme1`.
pub struct Scheme {}

/// The label that separates the key derivation from every other use of the hash.
pub open spec fn aes_key_dst() -> Seq<u8> {
    "DST__AES_KEY_DERIVATION".spec_bytes()
}

/// The AES key that the group element `element` stands for.
pub open spec fn spec_aes_key(element: Seq<u8>) -> Seq<u8> {
    sha3_256_digest(aes_key_dst() + element)
}

/// The ciphertext that carries `msg` under the key of `element`, behind the
/// header `c0`, `c1`, `nonce`.
pub open spec fn spec_seal(
    element: Seq<u8>,
    c0: Seq<u8>,
    c1: Seq<u8>,
    nonce: Seq<u8>,
    msg: Seq<u8>,
) -> Result<Seq<u8>, SchemeError> {
    if msg.len() > max_message_len() {
        Err(SchemeError::EncAes)
    } else {
        Ok(c0 + c1 + nonce + aes256gcm_seal(spec_aes_key(element), nonce, msg))
    }
}

/// What encryption returns once its randomness is fixed: `element_seed`
/// gives the group element that keys the cipher, `ephemeral_seed` the
/// ElGamal scalar.
pub open spec fn spec_enc(
    element_seed: Seq<u8>,
    ephemeral_seed: Seq<u8>,
    nonce: Seq<u8>,
    pk: Seq<u8>,
    msg: Seq<u8>,
) -> Result<Seq<u8>, SchemeError> {
    if pk.len() != ELEMENT_LEN {
        Err(SchemeError::EncPkLength)
    } else if !is_point(pk) {
        Err(SchemeError::EncPkElement)
    } else {
        let element = edwards_basepoint_mul(scalar_from_seed(element_seed));
        let c = elgamal::spec_encrypt::<Curve25519>(scalar_from_seed(ephemeral_seed), pk, element);
        spec_seal(element, c.0, c.1, nonce, msg)
    }
}

/// What decryption returns.
pub open spec fn spec_dec(sk: Seq<u8>, ciphertext: Seq<u8>) -> Result<Seq<u8>, SchemeError> {
    if sk.len() != 32 {
        Err(SchemeError::DecSkLength)
    } else if !is_scalar(sk) {
        Err(SchemeError::DecSkScalar)
    } else if ciphertext.len() < HEADER_LEN {
        Err(SchemeError::DecCiphertextLength)
    } else if !is_point(ciphertext.subrange(0, 32)) {
        Err(SchemeError::DecC0Element)
    } else if !is_point(ciphertext.subrange(32, 64)) {
        Err(SchemeError::DecC1Element)
    } else {
        let element = elgamal::spec_decrypt::<Curve25519>(
            sk,
            ciphertext.subrange(0, 32),
            ciphertext.subrange(32, 64),
        );
        match aes256gcm_open(
            spec_aes_key(element),
            ciphertext.subrange(64, 76),
            ciphertext.subrange(76, ciphertext.len() as int),
        ) {
            Some(msg) => Ok(msg),
            None => Err(SchemeError::DecAes),
        }
    }
}

/// The key pair that a seed stands for: the scalar of the seed, and the
/// base point multiplied by it.
pub open spec fn spec_key_gen(seed: Seq<u8>) -> (Seq<u8>, Seq<u8>) {
    (scalar_from_seed(seed), edwards_basepoint_mul(scalar_from_seed(seed)))
}

/// The bytes that the cipher returned, if it returned any.
pub open spec fn sealed_view(sealed: Result<Vec<u8>, aes_gcm::Error>) -> Option<Seq<u8>> {
    match sealed {
        Ok(s) => Some(s@),
        Err(_) => None,
    }
}

impl Scheme {
    /// Derives the AES key from a group element: the SHA3-256 digest of the
    /// label followed by the compressed element.
    pub fn hash_group_element_to_aes_key(element: &Point) -> (key: Vec<u8>)
        ensures
            key@ == spec_aes_key(element@),
            key@.len() == 32,
    {
        let mut input: Vec<u8> = Vec::new();
        append_bytes(&mut input, "DST__AES_KEY_DERIVATION".as_bytes());
        let encoded = Curve25519::element_to_bytes(element);
        append_bytes(&mut input, encoded.as_slice());
        sha3_256(input.as_slice())
    }

    /// Puts the ciphertext together from its header and from what the
    /// cipher returned for the message.
    pub fn frame_ciphertext(
        c0: &[u8],
        c1: &[u8],
        nonce: &[u8],
        sealed: Result<Vec<u8>, aes_gcm::Error>,
    ) -> (ciphertext: Result<Vec<u8>, SchemeError>)
        ensures
            match sealed {
                Ok(s) => bytes_result(ciphertext) == Ok::<Seq<u8>, SchemeError>(
                    c0@ + c1@ + nonce@ + s@,
                ),
                Err(_) => ciphertext == Err::<Vec<u8>, SchemeError>(SchemeError::EncAes),
            },
    {
        match sealed {
            Ok(s) => {
                let mut serialized: Vec<u8> = Vec::new();
                append_bytes(&mut serialized, c0);
                append_bytes(&mut serialized, c1);
                append_bytes(&mut serialized, nonce);
                append_bytes(&mut serialized, s.as_slice());
                Ok(serialized)
            },
            Err(_) => Err(SchemeError::EncAes),
        }
    }

    /// Encrypts `msg` under the key of `element` and frames the result
    /// behind the header. Where the header is an ElGamal ciphertext of
    /// `element` under `pk`, the result decrypts to `msg`.
    fn seal(
        pk: &Point,
        element: &Point,
        c0: &Point,
        c1: &Point,
        nonce: &[u8; 12],
        msg: &[u8],
    ) -> (ciphertext: Result<Vec<u8>, SchemeError>)
        requires
            forall|sk: Seq<u8>| #[trigger]
                elgamal::is_key_pair::<Curve25519>(sk, pk@) ==> elgamal::spec_decrypt::<
                    Curve25519,
                >(sk, c0@, c1@) == element@,
        ensures
            bytes_result(ciphertext) == spec_seal(element@, c0@, c1@, nonce@, msg@),
            ciphertext matches Ok(c) ==> c@.len() == HEADER_LEN + msg@.len() + TAG_LEN,
            ciphertext matches Ok(c) ==> forall|sk: Seq<u8>| #[trigger]
                elgamal::is_key_pair::<Curve25519>(sk, pk@) ==> spec_dec(sk, c@) == Ok::<
                    Seq<u8>,
                    SchemeError,
                >(msg@),
    {
        let key = Self::hash_group_element_to_aes_key(element);
        let sealed = aes256gcm_encrypt(key.as_slice(), nonce.as_slice(), msg);
        let ghost sealed_bytes = sealed_view(sealed);
        let c0_bytes = Curve25519::element_to_bytes(c0);
        let c1_bytes = Curve25519::element_to_bytes(c1);
        let ciphertext = Self::frame_ciphertext(
            c0_bytes.as_slice(),
            c1_bytes.as_slice(),
            nonce.as_slice(),
            sealed,
        );
        proof {
            if ciphertext is Ok {
                let c = ciphertext->Ok_0;
                let s = sealed_bytes->Some_0;
                assert(c@ == c0@ + c1@ + nonce@ + s);
                assert(c@.subrange(0, 32) =~= c0@);
                assert(c@.subrange(32, 64) =~= c1@);
                assert(c@.subrange(64, 76) =~= nonce@);
                assert(c@.subrange(76, c@.len() as int) =~= s);
                assert forall|sk: Seq<u8>| #[trigger]
                    elgamal::is_key_pair::<Curve25519>(sk, pk@) implies spec_dec(sk, c@) == Ok::<
                    Seq<u8>,
                    SchemeError,
                >(msg@) by {
                    assert(elgamal::spec_decrypt::<Curve25519>(sk, c0@, c1@) == element@);
                }
            }
        }
        ciphertext
    }

    /// The key pair `(sk, pk)` that `seed` stands for.
    pub fn key_gen_from_seed(seed: &[u8; 64]) -> (keys: (Vec<u8>, Vec<u8>))
        ensures
            (keys.0@, keys.1@) == spec_key_gen(seed@),
            elgamal::is_key_pair::<Curve25519>(keys.0@, keys.1@),
            is_scalar(keys.0@),
            is_point(keys.1@),
    {
        let (sk, pk) = elgamal::key_gen_from_seed::<Curve25519>(seed);
        let sk_bytes = Curve25519::scalar_to_bytes(&sk);
        let pk_bytes = Curve25519::element_to_bytes(&pk);
        (sk_bytes, pk_bytes)
    }

    /// Encrypts `msg` to the holder of `pk` with the randomness given:
    /// `element_seed` for the group element that keys the cipher,
    /// `ephemeral_seed` for the ElGamal scalar, and the cipher's nonce.
    pub fn enc_with_seeds(
        element_seed: &[u8; 64],
        ephemeral_seed: &[u8; 64],
        nonce: &[u8; 12],
        pk: &[u8],
        msg: &[u8],
    ) -> (ciphertext: Result<Vec<u8>, SchemeError>)
        ensures
            bytes_result(ciphertext) == spec_enc(
                element_seed@,
                ephemeral_seed@,
                nonce@,
                pk@,
                msg@,
            ),
            ciphertext matches Ok(c) ==> c@.len() == HEADER_LEN + msg@.len() + TAG_LEN,
            ciphertext matches Ok(c) ==> forall|sk: Seq<u8>| #[trigger]
                elgamal::is_key_pair::<Curve25519>(sk, pk@) ==> spec_dec(sk, c@) == Ok::<
                    Seq<u8>,
                    SchemeError,
                >(msg@),
    {
        if pk.len() != ELEMENT_LEN {
            return Err(SchemeError::EncPkLength);
        }
        let pk_point = match Curve25519::element_from_bytes(pk) {
            Some(p) => p,
            None => {
                return Err(SchemeError::EncPkElement);
            },
        };
        let element_scalar = Curve25519::scalar_from_seed(element_seed);
        let element = Curve25519::generator_mul(&element_scalar);
        let r = Curve25519::scalar_from_seed(ephemeral_seed);
        let c = elgamal::encrypt_with::<Curve25519>(&r, &pk_point, &element);
        Self::seal(&pk_point, &element, &c.0, &c.1, nonce, msg)
    }
}

impl AsymmetricEncryption for Scheme {
    open spec fn spec_scheme_name() -> Seq<char> {
        "Scheme1"@
    }

    open spec fn is_key_pair(sk: Seq<u8>, pk: Seq<u8>) -> bool {
        elgamal::is_key_pair::<Curve25519>(sk, pk)
    }

    open spec fn spec_dec(sk: Seq<u8>, ciphertext: Seq<u8>) -> Result<Seq<u8>, SchemeError> {
        spec_dec(sk, ciphertext)
    }

    fn scheme_name() -> (name: String) {
        "Scheme1".to_owned()
    }

    /// The secret key is a scalar drawn from `rng`, the public key the base
    /// point multiplied by it.
    fn key_gen<R: RandomSource>(rng: &mut R) -> (keys: (Vec<u8>, Vec<u8>))
        ensures
            exists|seed: Seq<u8>| seed.len() == 64 && (keys.0@, keys.1@) == spec_key_gen(seed),
            is_scalar(keys.0@),
            is_point(keys.1@),
    {
        let (sk, pk) = elgamal::key_gen::<Curve25519, R>(rng);
        let sk_bytes = Curve25519::scalar_to_bytes(&sk);
        let pk_bytes = Curve25519::element_to_bytes(&pk);
        proof {
            let seed = choose|seed: Seq<u8>|
                seed.len() == 64 && sk@ == Curve25519::spec_scalar_from_seed(seed);
            assert(seed.len() == 64 && (sk_bytes@, pk_bytes@) == spec_key_gen(seed));
        }
        (sk_bytes, pk_bytes)
    }

    /// A public key of another length than 32 bytes is malformed input. A
    /// public key of 32 bytes is refused unless it is the canonical encoding
    /// of a point, and the message where it is longer than the cipher takes. A
    /// ciphertext is 92 bytes longer than the message. Which ciphertext
    /// comes back depends on the 64 bytes drawn from `main_rng` for the
    /// group element, the 64 drawn from it for the ElGamal scalar, and the
    /// 12 drawn from `aead_rng` for the nonce, and on nothing else.
    fn enc<R1: RandomSource, R2: RandomSource>(
        main_rng: &mut R1,
        aead_rng: &mut R2,
        pk: &[u8],
        msg: &[u8],
    ) -> (ciphertext: Result<Vec<u8>, SchemeError>)
        ensures
            exists|element_seed: Seq<u8>, ephemeral_seed: Seq<u8>, nonce: Seq<u8>|
                element_seed.len() == 64 && ephemeral_seed.len() == 64 && nonce.len() == 12
                    && bytes_result(ciphertext) == #[trigger] spec_enc(
                    element_seed,
                    ephemeral_seed,
                    nonce,
                    pk@,
                    msg@,
                ),
            pk@.len() != ELEMENT_LEN ==> ciphertext == Err::<Vec<u8>, SchemeError>(
                SchemeError::EncPkLength,
            ),
            pk@.len() != ELEMENT_LEN ==> (ciphertext matches Err(e) && e.spec_kind()
                == ErrorKind::MalformedInput),
            pk@.len() == ELEMENT_LEN && !is_point(pk@) ==> ciphertext == Err::<
                Vec<u8>,
                SchemeError,
            >(SchemeError::EncPkElement),
            is_point(pk@) && msg@.len() > max_message_len() ==> ciphertext == Err::<
                Vec<u8>,
                SchemeError,
            >(SchemeError::EncAes),
            is_point(pk@) && msg@.len() <= max_message_len() ==> ciphertext is Ok,
            ciphertext matches Ok(c) ==> c@.len() == HEADER_LEN + msg@.len() + TAG_LEN,
    {
        if pk.len() != ELEMENT_LEN {
            proof {
                let zeros = Seq::new(64, |i: int| 0u8);
                let nonce = Seq::new(12, |i: int| 0u8);
                assert(spec_enc(zeros, zeros, nonce, pk@, msg@) == Err::<Seq<u8>, SchemeError>(
                    SchemeError::EncPkLength,
                ));
            }
            return Err(SchemeError::EncPkLength);
        }
        let pk_point = match Curve25519::element_from_bytes(pk) {
            Some(p) => p,
            None => {
                proof {
                    let zeros = Seq::new(64, |i: int| 0u8);
                    let nonce = Seq::new(12, |i: int| 0u8);
                    assert(spec_enc(zeros, zeros, nonce, pk@, msg@) == Err::<
                        Seq<u8>,
                        SchemeError,
                    >(SchemeError::EncPkElement));
                }
                return Err(SchemeError::EncPkElement);
            },
        };
        let aes_key_g1 = elgamal::rand_element::<Curve25519, R1>(main_rng);
        let c = elgamal::encrypt::<Curve25519, R1>(main_rng, &pk_point, &aes_key_g1);
        let nonce: [u8; 12] = random_array::<R2, 12>(aead_rng);
        let ciphertext = Self::seal(&pk_point, &aes_key_g1, &c.0, &c.1, &nonce, msg);
        proof {
            let element_seed = choose|seed: Seq<u8>|
                seed.len() == 64 && aes_key_g1@ == Curve25519::spec_generator_mul(
                    Curve25519::spec_scalar_from_seed(seed),
                );
            let ephemeral_seed = choose|seed: Seq<u8>|
                seed.len() == 64 && (c.0@, c.1@) == elgamal::spec_encrypt::<Curve25519>(
                    Curve25519::spec_scalar_from_seed(seed),
                    pk_point@,
                    aes_key_g1@,
                );
            assert(bytes_result(ciphertext) == spec_enc(
                element_seed,
                ephemeral_seed,
                nonce@,
                pk@,
                msg@,
            ));
        }
        ciphertext
    }

    /// The checks are made in this order: the length of the secret key,
    /// that it is a canonical scalar, the length of the ciphertext, that
    /// each of the two header elements is a canonical point, and the
    /// authentication tag. So a ciphertext of fewer than 76 bytes is
    /// malformed input, unless the secret key has 32 bytes and is no
    /// canonical scalar, which is reported first. A message that comes back
    /// is 92 bytes shorter than the ciphertext.
    fn dec(sk: &[u8], ciphertext: &[u8]) -> (msg: Result<Vec<u8>, SchemeError>)
        ensures
            ciphertext@.len() < HEADER_LEN && (sk@.len() != 32 || is_scalar(sk@)) ==> (msg matches Err(
                e,
            ) && e.spec_kind() == ErrorKind::MalformedInput),
            msg matches Ok(m) ==> ciphertext@.len() == HEADER_LEN + m@.len() + TAG_LEN,
    {
        if sk.len() != 32 {
            return Err(SchemeError::DecSkLength);
        }
        let sk_scalar = match Curve25519::scalar_from_bytes(sk) {
            Some(s) => s,
            None => {
                return Err(SchemeError::DecSkScalar);
            },
        };
        if ciphertext.len() < HEADER_LEN {
            return Err(SchemeError::DecCiphertextLength);
        }
        let c0 = match Curve25519::element_from_bytes(slice_subrange(ciphertext, 0, 32)) {
            Some(p) => p,
            None => {
                return Err(SchemeError::DecC0Element);
            },
        };
        let c1 = match Curve25519::element_from_bytes(slice_subrange(ciphertext, 32, 64)) {
            Some(p) => p,
            None => {
                return Err(SchemeError::DecC1Element);
            },
        };
        let aes_key_element = elgamal::decrypt::<Curve25519>(&sk_scalar, &c0, &c1);
        let key = Self::hash_group_element_to_aes_key(&aes_key_element);
        let nonce = slice_subrange(ciphertext, 64, 76);
        let payload = slice_subrange(ciphertext, 76, ciphertext.len());
        match aes256gcm_decrypt(key.as_slice(), nonce, payload) {
            Ok(plaintext) => Ok(plaintext),
            Err(_) => Err(SchemeError::DecAes),
        }
    }
}

} // verus!
