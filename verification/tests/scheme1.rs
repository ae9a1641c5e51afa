use aes_gcm::aead::Aead;
use aes_gcm::KeyInit;
use pepper_common::asymmetric_encryption::scheme1::Scheme;
use pepper_common::asymmetric_encryption::AsymmetricEncryption;
use pepper_common::elgamal::curve25519::Curve25519;
use pepper_common::elgamal::ElGamalFriendlyGroup;
use pepper_common::error::{ErrorKind, SchemeError};
use pepper_common::random::RandomSource;

struct MainRng(rand_core::OsRng);

impl RandomSource for MainRng {
    fn next_byte(&mut self) -> u8 {
        let mut byte = [0u8; 1];
        rand_core::RngCore::fill_bytes(&mut self.0, &mut byte);
        byte[0]
    }
}

struct AeadRng(aes_gcm::aead::OsRng);

impl RandomSource for AeadRng {
    fn next_byte(&mut self) -> u8 {
        let mut byte = [0u8; 1];
        aes_gcm::aead::rand_core::RngCore::fill_bytes(&mut self.0, &mut byte);
        byte[0]
    }
}

/// A repeatable stream of bytes.
struct Seeded(u64);

impl RandomSource for Seeded {
    fn next_byte(&mut self) -> u8 {
        self.0 = self.0.wrapping_add(0x9e37_79b9_7f4a_7c15);
        let mut z = self.0;
        z = (z ^ (z >> 30)).wrapping_mul(0xbf58_476d_1ce4_e5b9);
        z = (z ^ (z >> 27)).wrapping_mul(0x94d0_49bb_1331_11eb);
        (z ^ (z >> 31)) as u8
    }
}

fn seed_of(value: u8) -> [u8; 64] {
    let mut seed = [0u8; 64];
    seed[0] = value;
    seed
}

const MESSAGE: &[u8] =
    b"hello world again and again and again and again and again and again and again";

const BASEPOINT: [u8; 32] = [
    0x58, 0x66, 0x66, 0x66, 0x66, 0x66, 0x66, 0x66, 0x66, 0x66, 0x66, 0x66, 0x66, 0x66, 0x66, 0x66,
    0x66, 0x66, 0x66, 0x66, 0x66, 0x66, 0x66, 0x66, 0x66, 0x66, 0x66, 0x66, 0x66, 0x66, 0x66, 0x66,
];

const GROUP_ORDER: [u8; 32] = [
    0xed, 0xd3, 0xf5, 0x5c, 0x1a, 0x63, 0x12, 0x58, 0xd6, 0x9c, 0xf7, 0xa2, 0xde, 0xf9, 0xde, 0x14,
    0x00, 0x00, 0x00, 0x00, 0x00, 0x00, 0x00, 0x00, 0x00, 0x00, 0x00, 0x00, 0x00, 0x00, 0x00, 0x10,
];

fn valid_ciphertext() -> (Vec<u8>, Vec<u8>) {
    let (sk, pk) = Scheme::key_gen_from_seed(&seed_of(7));
    let ciphertext =
        Scheme::enc_with_seeds(&seed_of(8), &seed_of(9), &[3u8; 12], &pk, b"attack at dawn")
            .unwrap();
    (sk, ciphertext)
}

#[test]
fn gen_enc_dec() {
    let mut main_rng = MainRng(rand_core::OsRng);
    let mut aead_rng = AeadRng(aes_gcm::aead::OsRng);
    let (sk, pk) = Scheme::key_gen(&mut main_rng);
    let msg = b"hello world again and again and again and again and again and again and again"
        .to_vec();
    let ciphertext =
        Scheme::enc(&mut main_rng, &mut aead_rng, pk.as_slice(), msg.as_slice()).unwrap();
    assert_eq!(
        msg,
        Scheme::dec(sk.as_slice(), ciphertext.as_slice()).unwrap()
    );
}

#[test]
fn scheme1_is_named_scheme1() {
    assert_eq!(Scheme::scheme_name(), "Scheme1");
}

#[test]
fn round_trip_for_messages_of_many_lengths() {
    let mut main_rng = Seeded(1);
    let mut aead_rng = Seeded(2);
    let (sk, pk) = Scheme::key_gen(&mut main_rng);
    for len in [0usize, 1, 15, 16, 17, 31, 32, 33, 255, 1000, 70_000] {
        let msg: Vec<u8> = (0..len).map(|i| (i % 251) as u8).collect();
        let ciphertext = Scheme::enc(&mut main_rng, &mut aead_rng, &pk, &msg).unwrap();
        assert_eq!(ciphertext.len(), 32 + 32 + 12 + len + 16);
        assert_eq!(Scheme::dec(&sk, &ciphertext).unwrap(), msg);
    }
}

#[test]
fn empty_message_round_trips_in_ninety_two_bytes() {
    let (sk, pk) = Scheme::key_gen_from_seed(&seed_of(1));
    let ciphertext =
        Scheme::enc_with_seeds(&seed_of(2), &seed_of(3), &[0u8; 12], &pk, b"").unwrap();
    assert_eq!(ciphertext.len(), 92);
    assert_eq!(Scheme::dec(&sk, &ciphertext).unwrap(), Vec::<u8>::new());
}

#[test]
fn fixed_seed_scenario_gives_173_bytes() {
    let mut key_rng = Seeded(42);
    let mut main_rng = Seeded(43);
    let mut aead_rng = Seeded(44);
    let (sk, pk) = Scheme::key_gen(&mut key_rng);
    let msg: &[u8] =
        b"hello world again and again and again and again and again and again and again and";
    assert_eq!(msg.len(), 81);
    let ciphertext = Scheme::enc(&mut main_rng, &mut aead_rng, &pk, msg).unwrap();
    assert_eq!(ciphertext.len(), 32 + 32 + 12 + (81 + 16));
    assert_eq!(ciphertext.len(), 173);
    assert_eq!(Scheme::dec(&sk, &ciphertext).unwrap(), msg.to_vec());

    assert_eq!(MESSAGE.len(), 77);
    let ciphertext = Scheme::enc(&mut main_rng, &mut aead_rng, &pk, MESSAGE).unwrap();
    assert_eq!(ciphertext.len(), 169);
    assert_eq!(Scheme::dec(&sk, &ciphertext).unwrap(), MESSAGE.to_vec());
}

#[test]
fn same_seeds_give_the_same_keys_and_ciphertext() {
    let first = Scheme::key_gen(&mut Seeded(5));
    let second = Scheme::key_gen(&mut Seeded(5));
    assert_eq!(first, second);
    let a = Scheme::enc(&mut Seeded(6), &mut Seeded(7), &first.1, MESSAGE).unwrap();
    let b = Scheme::enc(&mut Seeded(6), &mut Seeded(7), &first.1, MESSAGE).unwrap();
    assert_eq!(a, b);
}

#[test]
fn enc_draws_element_seed_then_scalar_seed_then_nonce() {
    let (_, pk) = Scheme::key_gen_from_seed(&seed_of(11));
    let mut main = Seeded(100);
    let mut element_seed = [0u8; 64];
    let mut ephemeral_seed = [0u8; 64];
    for byte in element_seed.iter_mut() {
        *byte = main.next_byte();
    }
    for byte in ephemeral_seed.iter_mut() {
        *byte = main.next_byte();
    }
    let mut aead = Seeded(200);
    let mut nonce = [0u8; 12];
    for byte in nonce.iter_mut() {
        *byte = aead.next_byte();
    }
    let drawn = Scheme::enc(&mut Seeded(100), &mut Seeded(200), &pk, MESSAGE).unwrap();
    let given = Scheme::enc_with_seeds(&element_seed, &ephemeral_seed, &nonce, &pk, MESSAGE).unwrap();
    assert_eq!(drawn, given);
}

#[test]
fn fresh_randomness_gives_different_ciphertexts() {
    let mut main_rng = MainRng(rand_core::OsRng);
    let mut aead_rng = AeadRng(aes_gcm::aead::OsRng);
    let (sk, pk) = Scheme::key_gen(&mut main_rng);
    let a = Scheme::enc(&mut main_rng, &mut aead_rng, &pk, MESSAGE).unwrap();
    let b = Scheme::enc(&mut main_rng, &mut aead_rng, &pk, MESSAGE).unwrap();
    assert_ne!(a, b);
    assert_eq!(Scheme::dec(&sk, &a).unwrap(), MESSAGE.to_vec());
    assert_eq!(Scheme::dec(&sk, &b).unwrap(), MESSAGE.to_vec());
}

#[test]
fn flipping_any_bit_of_the_payload_fails_authentication() {
    let (sk, ciphertext) = valid_ciphertext();
    for index in 76..ciphertext.len() {
        for bit in 0..8 {
            let mut tampered = ciphertext.clone();
            tampered[index] ^= 1 << bit;
            let failure = Scheme::dec(&sk, &tampered).unwrap_err();
            assert_eq!(failure, SchemeError::DecAes);
            assert_eq!(failure.kind(), ErrorKind::AuthenticationFailure);
        }
    }
}

#[test]
fn flipping_a_bit_of_the_nonce_fails_authentication() {
    let (sk, ciphertext) = valid_ciphertext();
    let mut tampered = ciphertext.clone();
    tampered[64] ^= 1;
    assert_eq!(Scheme::dec(&sk, &tampered), Err(SchemeError::DecAes));
}

#[test]
fn another_secret_key_fails_authentication() {
    let (_, ciphertext) = valid_ciphertext();
    let (other_sk, _) = Scheme::key_gen_from_seed(&seed_of(70));
    assert_eq!(Scheme::dec(&other_sk, &ciphertext), Err(SchemeError::DecAes));
}

#[test]
fn truncated_payload_fails_authentication() {
    let (sk, ciphertext) = valid_ciphertext();
    assert_eq!(Scheme::dec(&sk, &ciphertext[..76]), Err(SchemeError::DecAes));
    assert_eq!(Scheme::dec(&sk, &ciphertext[..91]), Err(SchemeError::DecAes));
    assert_eq!(
        Scheme::dec(&sk, &ciphertext[..ciphertext.len() - 1]),
        Err(SchemeError::DecAes)
    );
}

#[test]
fn enc_rejects_a_public_key_of_the_wrong_length() {
    let (_, pk) = Scheme::key_gen_from_seed(&seed_of(1));
    for len in [0usize, 1, 31, 33, 64] {
        let mut buffer = pk.clone();
        buffer.resize(len, 0);
        let failure = Scheme::enc(&mut Seeded(1), &mut Seeded(2), &buffer, MESSAGE).unwrap_err();
        assert_eq!(failure, SchemeError::EncPkLength);
        assert_eq!(failure.kind(), ErrorKind::MalformedInput);
        assert_eq!(
            Scheme::enc_with_seeds(&seed_of(1), &seed_of(2), &[0u8; 12], &buffer, MESSAGE),
            Err(SchemeError::EncPkLength)
        );
    }
}

fn bytes_off_the_curve() -> [u8; 32] {
    for first in 0u8..=255 {
        let mut candidate = [0u8; 32];
        candidate[0] = first;
        let compressed = curve25519_dalek::edwards::CompressedEdwardsY(candidate);
        if compressed.decompress().is_none() {
            return candidate;
        }
    }
    unreachable!()
}

#[test]
fn enc_rejects_a_public_key_off_the_curve() {
    let pk = bytes_off_the_curve();
    let failure = Scheme::enc(&mut Seeded(1), &mut Seeded(2), &pk, MESSAGE).unwrap_err();
    assert_eq!(failure, SchemeError::EncPkElement);
    assert_eq!(failure.kind(), ErrorKind::InvalidEncoding);
}

#[test]
fn enc_rejects_a_public_key_in_another_encoding_of_a_point() {
    // y = p + 1 spells the point with y = 1 a second time.
    let mut unreduced = [0xffu8; 32];
    unreduced[0] = 0xee;
    unreduced[31] = 0x7f;
    assert!(curve25519_dalek::edwards::CompressedEdwardsY(unreduced)
        .decompress()
        .is_some());
    assert_eq!(
        Scheme::enc(&mut Seeded(1), &mut Seeded(2), &unreduced, MESSAGE),
        Err(SchemeError::EncPkElement)
    );
    // x = 0 has no sign: the sign bit set spells the same point a second time.
    let mut signed_zero = [0u8; 32];
    signed_zero[0] = 1;
    signed_zero[31] = 0x80;
    assert!(curve25519_dalek::edwards::CompressedEdwardsY(signed_zero)
        .decompress()
        .is_some());
    assert_eq!(
        Scheme::enc(&mut Seeded(1), &mut Seeded(2), &signed_zero, MESSAGE),
        Err(SchemeError::EncPkElement)
    );
    assert!(Curve25519::element_from_bytes(&signed_zero).is_none());
}

#[test]
fn frame_reports_a_refusal_of_the_cipher() {
    let failure =
        Scheme::frame_ciphertext(&[1u8; 32], &[2u8; 32], &[3u8; 12], Err(aes_gcm::Error))
            .unwrap_err();
    assert_eq!(failure, SchemeError::EncAes);
    assert_eq!(failure.kind(), ErrorKind::MalformedInput);
}

#[test]
fn frame_concatenates_header_and_payload() {
    let framed =
        Scheme::frame_ciphertext(&[1u8; 32], &[2u8; 32], &[3u8; 12], Ok(vec![4u8; 20])).unwrap();
    let mut expected = vec![1u8; 32];
    expected.extend_from_slice(&[2u8; 32]);
    expected.extend_from_slice(&[3u8; 12]);
    expected.extend_from_slice(&[4u8; 20]);
    assert_eq!(framed, expected);
}

#[test]
fn dec_rejects_a_secret_key_of_the_wrong_length() {
    let (sk, ciphertext) = valid_ciphertext();
    for len in [0usize, 31, 33] {
        let mut buffer = sk.clone();
        buffer.resize(len, 0);
        let failure = Scheme::dec(&buffer, &ciphertext).unwrap_err();
        assert_eq!(failure, SchemeError::DecSkLength);
        assert_eq!(failure.kind(), ErrorKind::MalformedInput);
    }
}

#[test]
fn dec_rejects_a_secret_key_that_is_not_reduced() {
    let (_, ciphertext) = valid_ciphertext();
    let failure = Scheme::dec(&[0xffu8; 32], &ciphertext).unwrap_err();
    assert_eq!(failure, SchemeError::DecSkScalar);
    assert_eq!(failure.kind(), ErrorKind::InvalidEncoding);
    assert_eq!(
        Scheme::dec(&GROUP_ORDER, &ciphertext),
        Err(SchemeError::DecSkScalar)
    );
    let mut below = GROUP_ORDER;
    below[0] -= 1;
    assert_ne!(
        Scheme::dec(&below, &ciphertext),
        Err(SchemeError::DecSkScalar)
    );
}

#[test]
fn dec_rejects_a_ciphertext_shorter_than_its_header() {
    let (sk, ciphertext) = valid_ciphertext();
    for len in [0usize, 1, 32, 64, 75] {
        let failure = Scheme::dec(&sk, &ciphertext[..len]).unwrap_err();
        assert_eq!(failure, SchemeError::DecCiphertextLength);
        assert_eq!(failure.kind(), ErrorKind::MalformedInput);
    }
    // The secret key is looked at first.
    assert_eq!(
        Scheme::dec(&[0xffu8; 32], &ciphertext[..10]),
        Err(SchemeError::DecSkScalar)
    );
    assert_eq!(
        Scheme::dec(&[0u8; 3], &ciphertext[..10]),
        Err(SchemeError::DecSkLength)
    );
}

#[test]
fn dec_rejects_header_elements_off_the_curve() {
    let (sk, ciphertext) = valid_ciphertext();
    let bad = bytes_off_the_curve();
    let mut first = ciphertext.clone();
    first[..32].copy_from_slice(&bad);
    let failure = Scheme::dec(&sk, &first).unwrap_err();
    assert_eq!(failure, SchemeError::DecC0Element);
    assert_eq!(failure.kind(), ErrorKind::InvalidEncoding);
    let mut second = ciphertext.clone();
    second[32..64].copy_from_slice(&bad);
    let failure = Scheme::dec(&sk, &second).unwrap_err();
    assert_eq!(failure, SchemeError::DecC1Element);
    assert_eq!(failure.kind(), ErrorKind::InvalidEncoding);
    let mut both = ciphertext.clone();
    both[..32].copy_from_slice(&bad);
    both[32..64].copy_from_slice(&bad);
    assert_eq!(Scheme::dec(&sk, &both), Err(SchemeError::DecC0Element));
}

#[test]
fn key_gen_from_seed_reduces_the_seed_and_multiplies_the_base_point() {
    let (sk, pk) = Scheme::key_gen_from_seed(&seed_of(1));
    let mut one = [0u8; 32];
    one[0] = 1;
    assert_eq!(sk, one.to_vec());
    assert_eq!(pk, BASEPOINT.to_vec());

    let (sk, pk) = Scheme::key_gen_from_seed(&[0u8; 64]);
    assert_eq!(sk, vec![0u8; 32]);
    let mut identity = [0u8; 32];
    identity[0] = 1;
    assert_eq!(pk, identity.to_vec());

    // The group order itself reduces to zero, the order plus two to two.
    let mut seed = [0u8; 64];
    seed[..32].copy_from_slice(&GROUP_ORDER);
    assert_eq!(Scheme::key_gen_from_seed(&seed).0, vec![0u8; 32]);
    seed[0] += 2;
    let mut two = [0u8; 32];
    two[0] = 2;
    let (sk, pk) = Scheme::key_gen_from_seed(&seed);
    assert_eq!(sk, two.to_vec());
    let doubled = curve25519_dalek::constants::ED25519_BASEPOINT_POINT
        + curve25519_dalek::constants::ED25519_BASEPOINT_POINT;
    assert_eq!(pk, doubled.compress().to_bytes().to_vec());

    // 2^256 reduces to 2^256 mod the group order.
    let mut seed = [0u8; 64];
    seed[32] = 1;
    let expected = curve25519_dalek::scalar::Scalar::from_bytes_mod_order([0xff; 32])
        + curve25519_dalek::scalar::Scalar::one();
    assert_eq!(Scheme::key_gen_from_seed(&seed).0, expected.to_bytes().to_vec());
}

#[test]
fn key_gen_gives_a_canonical_scalar_and_its_point() {
    let mut rng = Seeded(77);
    for _ in 0..8 {
        let (sk, pk) = Scheme::key_gen(&mut rng);
        assert_eq!(sk.len(), 32);
        assert_eq!(pk.len(), 32);
        let mut array = [0u8; 32];
        array.copy_from_slice(&sk);
        let scalar = curve25519_dalek::scalar::Scalar::from_canonical_bytes(array).unwrap();
        let point = &curve25519_dalek::constants::ED25519_BASEPOINT_TABLE * &scalar;
        assert_eq!(pk, point.compress().to_bytes().to_vec());
    }
}

#[test]
fn aes_key_is_the_sha3_of_the_label_and_the_element() {
    let element = Curve25519::element_from_bytes(&BASEPOINT).unwrap();
    let key = Scheme::hash_group_element_to_aes_key(&element);
    let mut hasher = <sha3::Sha3_256 as sha3::Digest>::new();
    sha3::Digest::update(&mut hasher, b"DST__AES_KEY_DERIVATION");
    sha3::Digest::update(&mut hasher, BASEPOINT);
    assert_eq!(key, sha3::Digest::finalize(hasher).to_vec());
    assert_eq!(key.len(), 32);
}

#[test]
fn enc_with_seeds_matches_the_construction_step_by_step() {
    let (sk, pk) = Scheme::key_gen_from_seed(&seed_of(5));
    let element_seed = [0x11u8; 64];
    let ephemeral_seed = [0x22u8; 64];
    let nonce = [0x33u8; 12];
    let ciphertext =
        Scheme::enc_with_seeds(&element_seed, &ephemeral_seed, &nonce, &pk, MESSAGE).unwrap();

    let base = curve25519_dalek::constants::ED25519_BASEPOINT_POINT;
    let pk_point = curve25519_dalek::edwards::CompressedEdwardsY::from_slice(&pk)
        .decompress()
        .unwrap();
    let element = base * curve25519_dalek::scalar::Scalar::from_bytes_mod_order_wide(&element_seed);
    let r = curve25519_dalek::scalar::Scalar::from_bytes_mod_order_wide(&ephemeral_seed);
    let c0 = base * r;
    let c1 = element + pk_point * r;
    let mut hasher = <sha3::Sha3_256 as sha3::Digest>::new();
    sha3::Digest::update(&mut hasher, b"DST__AES_KEY_DERIVATION");
    sha3::Digest::update(&mut hasher, element.compress().to_bytes());
    let key = sha3::Digest::finalize(hasher);
    let cipher = aes_gcm::Aes256Gcm::new(aes_gcm::Key::<aes_gcm::Aes256Gcm>::from_slice(&key));
    let sealed = cipher
        .encrypt(aes_gcm::Nonce::from_slice(&nonce), MESSAGE)
        .unwrap();
    let mut expected = c0.compress().to_bytes().to_vec();
    expected.extend_from_slice(&c1.compress().to_bytes());
    expected.extend_from_slice(&nonce);
    expected.extend_from_slice(&sealed);
    assert_eq!(ciphertext, expected);
    assert_eq!(Scheme::dec(&sk, &ciphertext).unwrap(), MESSAGE.to_vec());
}

#[test]
fn dec_opens_a_ciphertext_made_outside_the_library() {
    let base = curve25519_dalek::constants::ED25519_BASEPOINT_POINT;
    let sk = curve25519_dalek::scalar::Scalar::from(123_456_789u64);
    let pk = base * sk;
    let element = base * curve25519_dalek::scalar::Scalar::from(5u64);
    let r = curve25519_dalek::scalar::Scalar::from(9u64);
    let c0 = base * r;
    let c1 = element + pk * r;
    let mut hasher = <sha3::Sha3_256 as sha3::Digest>::new();
    sha3::Digest::update(&mut hasher, b"DST__AES_KEY_DERIVATION");
    sha3::Digest::update(&mut hasher, element.compress().to_bytes());
    let key = sha3::Digest::finalize(hasher);
    let cipher = aes_gcm::Aes256Gcm::new(aes_gcm::Key::<aes_gcm::Aes256Gcm>::from_slice(&key));
    let nonce = [9u8; 12];
    let sealed = cipher
        .encrypt(aes_gcm::Nonce::from_slice(&nonce), &b"made elsewhere"[..])
        .unwrap();
    let mut ciphertext = c0.compress().to_bytes().to_vec();
    ciphertext.extend_from_slice(&c1.compress().to_bytes());
    ciphertext.extend_from_slice(&nonce);
    ciphertext.extend_from_slice(&sealed);
    assert_eq!(
        Scheme::dec(&sk.to_bytes(), &ciphertext).unwrap(),
        b"made elsewhere".to_vec()
    );
}
