//! Failures reported by the schemes.
//!
//! Every fallible operation returns an [`SchemeError`] that names the operation
//! and the check that failed. [`SchemeError::kind`] sorts the failures into the
//! four classes a caller may want to tell apart.

use vstd::prelude::*;

verus! {

/// The four classes into which every failure falls.
#[derive(Clone, Copy, Debug, PartialEq, Eq, Structural)]
pub enum ErrorKind {
    /// A key, ciphertext, output or message has a byte length that the
    /// scheme cannot take.
    MalformedInput,
    /// A byte string of the right length is not the canonical encoding of a
    /// scalar or of a group element.
    InvalidEncoding,
    /// The authentication tag does not match, or the pairing equation fails.
    AuthenticationFailure,
    /// A proof was supplied where the scheme mandates the empty proof.
    ArgumentMismatch,
}

/// A failed check, named after the operation that made it.
#[derive(Clone, Copy, Debug, PartialEq, Eq, Structural)]
pub enum SchemeError {
    /// Hybrid encryption: the public key is not 32 bytes long.
    EncPkLength,
    /// Hybrid encryption: the public key is not a canonical curve point.
    EncPkElement,
    /// Hybrid encryption: the cipher refused the message as too long.
    EncAes,
    /// Hybrid decryption: the secret key is not 32 bytes long.
    DecSkLength,
    /// Hybrid decryption: the secret key is not a canonical scalar.
    DecSkScalar,
    /// Hybrid decryption: the ciphertext is shorter than its header.
    DecCiphertextLength,
    /// Hybrid decryption: the first header element is not a canonical curve point.
    DecC0Element,
    /// Hybrid decryption: the second header element is not a canonical curve point.
    DecC1Element,
    /// Hybrid decryption: the cipher rejected the payload.
    DecAes,
    /// Public key derivation: the secret key is not 32 bytes long.
    PkFromSkSkLength,
    /// Public key derivation: the secret key is not a canonical scalar.
    PkFromSkSkScalar,
    /// Evaluation: the secret key is not 32 bytes long.
    EvalSkLength,
    /// Evaluation: the secret key is not a canonical scalar.
    EvalSkScalar,
    /// Verification: the proof is not empty.
    VerifyProof,
    /// Verification: the public key is not 96 bytes long.
    VerifyPkLength,
    /// Verification: the public key is not a canonical group element.
    VerifyPkElement,
    /// Verification: the output is not 48 bytes long.
    VerifyOutputLength,
    /// Verification: the output is not a canonical group element.
    VerifyOutputElement,
    /// Verification: the pairing equation does not hold.
    VerifyFinalCheck,
}

impl SchemeError {
    /// The class of this failure.
    pub open spec fn spec_kind(self) -> ErrorKind {
        match self {
            SchemeError::EncPkLength
            | SchemeError::EncAes
            | SchemeError::DecSkLength
            | SchemeError::DecCiphertextLength
            | SchemeError::PkFromSkSkLength
            | SchemeError::EvalSkLength
            | SchemeError::VerifyPkLength
            | SchemeError::VerifyOutputLength => ErrorKind::MalformedInput,
            SchemeError::EncPkElement
            | SchemeError::DecSkScalar
            | SchemeError::DecC0Element
            | SchemeError::DecC1Element
            | SchemeError::PkFromSkSkScalar
            | SchemeError::EvalSkScalar
            | SchemeError::VerifyPkElement
            | SchemeError::VerifyOutputElement => ErrorKind::InvalidEncoding,
            SchemeError::DecAes | SchemeError::VerifyFinalCheck => ErrorKind::AuthenticationFailure,
            SchemeError::VerifyProof => ErrorKind::ArgumentMismatch,
        }
    }

    /// The text that describes this failure: the scheme, the operation and
    /// the check.
    pub open spec fn spec_message(self) -> Seq<char> {
        match self {
            SchemeError::EncPkLength => "asymmetric_encryption::scheme1::enc failed with incorrect pk length"@,
            SchemeError::EncPkElement => "asymmetric_encryption::scheme1::enc failed with invalid pk element"@,
            SchemeError::EncAes => "asymmetric_encryption::scheme1::enc failed with aes error"@,
            SchemeError::DecSkLength => "asymmetric_encryption::scheme1::dec failed with incorrect sk length"@,
            SchemeError::DecSkScalar => "asymmetric_encryption::scheme1::dec failed with sk deserialization error"@,
            SchemeError::DecCiphertextLength => "asymmetric_encryption::scheme1::dec failed with invalid ciphertext length"@,
            SchemeError::DecC0Element => "asymmetric_encryption::scheme1::dec failed with invalid c0 element"@,
            SchemeError::DecC1Element => "asymmetric_encryption::scheme1::dec failed with invalid c1 element"@,
            SchemeError::DecAes => "asymmetric_encryption::scheme1::dec failed with aes decryption error"@,
            SchemeError::PkFromSkSkLength => "vuf::scheme0::pk_from_sk failed with incorrect sk length"@,
            SchemeError::PkFromSkSkScalar => "vuf::scheme0::pk_from_sk failed with sk deserialization error"@,
            SchemeError::EvalSkLength => "vuf::scheme0::eval failed with incorrect sk length"@,
            SchemeError::EvalSkScalar => "vuf::scheme0::eval failed with sk deserialization error"@,
            SchemeError::VerifyProof => "vuf::scheme0::verify failed with proof deserialization error"@,
            SchemeError::VerifyPkLength => "vuf::scheme0::verify failed with incorrect pk length"@,
            SchemeError::VerifyPkElement => "vuf::scheme0::verify failed with pk deserialization error"@,
            SchemeError::VerifyOutputLength => "vuf::scheme0::verify failed with incorrect output length"@,
            SchemeError::VerifyOutputElement => "vuf::scheme0::verify failed with output deserialization error"@,
            SchemeError::VerifyFinalCheck => "vuf::scheme0::verify failed with final check failure"@,
        }
    }

    /// The class of this failure.
    pub fn kind(&self) -> (kind: ErrorKind)
        ensures
            kind == self.spec_kind(),
    {
        match self {
            SchemeError::EncPkLength
            | SchemeError::EncAes
            | SchemeError::DecSkLength
            | SchemeError::DecCiphertextLength
            | SchemeError::PkFromSkSkLength
            | SchemeError::EvalSkLength
            | SchemeError::VerifyPkLength
            | SchemeError::VerifyOutputLength => ErrorKind::MalformedInput,
            SchemeError::EncPkElement
            | SchemeError::DecSkScalar
            | SchemeError::DecC0Element
            | SchemeError::DecC1Element
            | SchemeError::PkFromSkSkScalar
            | SchemeError::EvalSkScalar
            | SchemeError::VerifyPkElement
            | SchemeError::VerifyOutputElement => ErrorKind::InvalidEncoding,
            SchemeError::DecAes | SchemeError::VerifyFinalCheck => ErrorKind::AuthenticationFailure,
            SchemeError::VerifyProof => ErrorKind::ArgumentMismatch,
        }
    }

    /// The text that describes this failure, for logs and reports.
    pub fn message(&self) -> (text: String)
        ensures
            text@ == self.spec_message(),
    {
        let text: &str = match self {
            SchemeError::EncPkLength => "asymmetric_encryption::scheme1::enc failed with incorrect pk length",
            SchemeError::EncPkElement => "asymmetric_encryption::scheme1::enc failed with invalid pk element",
            SchemeError::EncAes => "asymmetric_encryption::scheme1::enc failed with aes error",
            SchemeError::DecSkLength => "asymmetric_encryption::scheme1::dec failed with incorrect sk length",
            SchemeError::DecSkScalar => "asymmetric_encryption::scheme1::dec failed with sk deserialization error",
            SchemeError::DecCiphertextLength => "asymmetric_encryption::scheme1::dec failed with invalid ciphertext length",
            SchemeError::DecC0Element => "asymmetric_encryption::scheme1::dec failed with invalid c0 element",
            SchemeError::DecC1Element => "asymmetric_encryption::scheme1::dec failed with invalid c1 element",
            SchemeError::DecAes => "asymmetric_encryption::scheme1::dec failed with aes decryption error",
            SchemeError::PkFromSkSkLength => "vuf::scheme0::pk_from_sk failed with incorrect sk length",
            SchemeError::PkFromSkSkScalar => "vuf::scheme0::pk_from_sk failed with sk deserialization error",
            SchemeError::EvalSkLength => "vuf::scheme0::eval failed with incorrect sk length",
            SchemeError::EvalSkScalar => "vuf::scheme0::eval failed with sk deserialization error",
            SchemeError::VerifyProof => "vuf::scheme0::verify failed with proof deserialization error",
            SchemeError::VerifyPkLength => "vuf::scheme0::verify failed with incorrect pk length",
            SchemeError::VerifyPkElement => "vuf::scheme0::verify failed with pk deserialization error",
            SchemeError::VerifyOutputLength => "vuf::scheme0::verify failed with incorrect output length",
            SchemeError::VerifyOutputElement => "vuf::scheme0::verify failed with output deserialization error",
            SchemeError::VerifyFinalCheck => "vuf::scheme0::verify failed with final check failure",
        };
        text.to_owned()
    }
}

/// The byte strings behind a result: what a contract says of a returned
/// `Result<Vec<u8>, SchemeError>`.
pub open spec fn bytes_result(r: Result<Vec<u8>, SchemeError>) -> Result<Seq<u8>, SchemeError> {
    match r {
        Ok(bytes) => Ok(bytes@),
        Err(e) => Err(e),
    }
}

} // verus!
