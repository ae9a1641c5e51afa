use pepper_common::bytes::{append_bytes, bytes_equal, copy_range};
use pepper_common::error::{ErrorKind, SchemeError};
use pepper_common::format::output_file;
use pepper_common::random::{random_array, RandomSource};

struct Counter(u8);

impl RandomSource for Counter {
    fn next_byte(&mut self) -> u8 {
        let byte = self.0;
        self.0 = self.0.wrapping_add(1);
        byte
    }
}

const ALL: [SchemeError; 19] = [
    SchemeError::EncPkLength,
    SchemeError::EncPkElement,
    SchemeError::EncAes,
    SchemeError::DecSkLength,
    SchemeError::DecSkScalar,
    SchemeError::DecCiphertextLength,
    SchemeError::DecC0Element,
    SchemeError::DecC1Element,
    SchemeError::DecAes,
    SchemeError::PkFromSkSkLength,
    SchemeError::PkFromSkSkScalar,
    SchemeError::EvalSkLength,
    SchemeError::EvalSkScalar,
    SchemeError::VerifyProof,
    SchemeError::VerifyPkLength,
    SchemeError::VerifyPkElement,
    SchemeError::VerifyOutputLength,
    SchemeError::VerifyOutputElement,
    SchemeError::VerifyFinalCheck,
];

#[test]
fn output_file_is_the_staged_format_file() {
    assert_eq!(output_file(), Some("tests/staged/aptos.yaml"));
}

#[test]
fn random_array_takes_the_bytes_in_order() {
    let mut rng = Counter(250);
    let drawn: [u8; 12] = random_array::<Counter, 12>(&mut rng);
    assert_eq!(drawn, [250, 251, 252, 253, 254, 255, 0, 1, 2, 3, 4, 5]);
    let next: [u8; 64] = random_array::<Counter, 64>(&mut rng);
    assert_eq!(next[0], 6);
    assert_eq!(next[63], 69);
    let none: [u8; 0] = random_array::<Counter, 0>(&mut rng);
    assert_eq!(none.len(), 0);
    assert_eq!(rng.next_byte(), 70);
}

#[test]
fn bytes_equal_compares_length_and_content() {
    assert!(bytes_equal(b"", b""));
    assert!(bytes_equal(b"abc", b"abc"));
    assert!(!bytes_equal(b"abc", b"abd"));
    assert!(!bytes_equal(b"abc", b"ab"));
    assert!(!bytes_equal(b"", b"a"));
}

#[test]
fn append_bytes_extends_at_the_end() {
    let mut head = vec![1u8, 2];
    append_bytes(&mut head, &[3, 4, 5]);
    assert_eq!(head, vec![1, 2, 3, 4, 5]);
    append_bytes(&mut head, &[]);
    assert_eq!(head, vec![1, 2, 3, 4, 5]);
}

#[test]
fn copy_range_takes_the_half_open_range() {
    let source = [10u8, 11, 12, 13, 14];
    assert_eq!(copy_range(&source, 1, 4), vec![11, 12, 13]);
    assert_eq!(copy_range(&source, 0, 5), source.to_vec());
    assert_eq!(copy_range(&source, 2, 2), Vec::<u8>::new());
}

#[test]
fn every_failure_has_its_kind() {
    let kinds: Vec<ErrorKind> = ALL.iter().map(|e| e.kind()).collect();
    let expected = vec![
        ErrorKind::MalformedInput,
        ErrorKind::InvalidEncoding,
        ErrorKind::MalformedInput,
        ErrorKind::MalformedInput,
        ErrorKind::InvalidEncoding,
        ErrorKind::MalformedInput,
        ErrorKind::InvalidEncoding,
        ErrorKind::InvalidEncoding,
        ErrorKind::AuthenticationFailure,
        ErrorKind::MalformedInput,
        ErrorKind::InvalidEncoding,
        ErrorKind::MalformedInput,
        ErrorKind::InvalidEncoding,
        ErrorKind::ArgumentMismatch,
        ErrorKind::MalformedInput,
        ErrorKind::InvalidEncoding,
        ErrorKind::MalformedInput,
        ErrorKind::InvalidEncoding,
        ErrorKind::AuthenticationFailure,
    ];
    assert_eq!(kinds, expected);
}

#[test]
fn every_failure_names_its_scheme_and_operation() {
    assert_eq!(
        SchemeError::EncPkLength.message(),
        "asymmetric_encryption::scheme1::enc failed with incorrect pk length"
    );
    assert_eq!(
        SchemeError::EncPkElement.message(),
        "asymmetric_encryption::scheme1::enc failed with invalid pk element"
    );
    assert_eq!(
        SchemeError::EncAes.message(),
        "asymmetric_encryption::scheme1::enc failed with aes error"
    );
    assert_eq!(
        SchemeError::DecSkLength.message(),
        "asymmetric_encryption::scheme1::dec failed with incorrect sk length"
    );
    assert_eq!(
        SchemeError::DecSkScalar.message(),
        "asymmetric_encryption::scheme1::dec failed with sk deserialization error"
    );
    assert_eq!(
        SchemeError::DecCiphertextLength.message(),
        "asymmetric_encryption::scheme1::dec failed with invalid ciphertext length"
    );
    assert_eq!(
        SchemeError::DecC0Element.message(),
        "asymmetric_encryption::scheme1::dec failed with invalid c0 element"
    );
    assert_eq!(
        SchemeError::DecC1Element.message(),
        "asymmetric_encryption::scheme1::dec failed with invalid c1 element"
    );
    assert_eq!(
        SchemeError::DecAes.message(),
        "asymmetric_encryption::scheme1::dec failed with aes decryption error"
    );
    assert_eq!(
        SchemeError::PkFromSkSkLength.message(),
        "vuf::scheme0::pk_from_sk failed with incorrect sk length"
    );
    assert_eq!(
        SchemeError::PkFromSkSkScalar.message(),
        "vuf::scheme0::pk_from_sk failed with sk deserialization error"
    );
    assert_eq!(
        SchemeError::EvalSkLength.message(),
        "vuf::scheme0::eval failed with incorrect sk length"
    );
    assert_eq!(
        SchemeError::EvalSkScalar.message(),
        "vuf::scheme0::eval failed with sk deserialization error"
    );
    assert_eq!(
        SchemeError::VerifyProof.message(),
        "vuf::scheme0::verify failed with proof deserialization error"
    );
    assert_eq!(
        SchemeError::VerifyPkLength.message(),
        "vuf::scheme0::verify failed with incorrect pk length"
    );
    assert_eq!(
        SchemeError::VerifyPkElement.message(),
        "vuf::scheme0::verify failed with pk deserialization error"
    );
    assert_eq!(
        SchemeError::VerifyOutputLength.message(),
        "vuf::scheme0::verify failed with incorrect output length"
    );
    assert_eq!(
        SchemeError::VerifyOutputElement.message(),
        "vuf::scheme0::verify failed with output deserialization error"
    );
    assert_eq!(
        SchemeError::VerifyFinalCheck.message(),
        "vuf::scheme0::verify failed with final check failure"
    );
}

#[test]
fn failures_are_told_apart() {
    for (i, a) in ALL.iter().enumerate() {
        for (j, b) in ALL.iter().enumerate() {
            assert_eq!(a == b, i == j);
            assert_eq!(a.message() == b.message(), i == j);
        }
    }
}
