//! The symmetric half of the hybrid scheme: SHA3-256 through `sha3`, and
//! AES-256-GCM through `aes-gcm`.
//!
//! What the hash and the cipher compute is named here and not defined. Of
//! the cipher the contracts state the lengths, the limit on the message and
//! that opening undoes sealing.

use vstd::prelude::*;

verus! {

/// The length of an AES-256-GCM key, in bytes.
pub const KEY_LEN: usize = 32;

/// The length of an AES-256-GCM nonce, in bytes.
pub const NONCE_LEN: usize = 12;

/// The length of an AES-256-GCM authentication tag, in bytes.
pub const TAG_LEN: usize = 16;

/// The longest message that AES-256-GCM takes under one nonce: 2^36 bytes.
pub open spec fn max_message_len() -> nat {
    0x10_0000_0000
}

/// The SHA3-256 digest of `data`.
pub uninterp spec fn sha3_256_digest(data: Seq<u8>) -> Seq<u8>;

/// The AES-256-GCM ciphertext of `msg`, with its tag appended, under `key`
/// and `nonce` and without associated data.
pub uninterp spec fn aes256gcm_seal(key: Seq<u8>, nonce: Seq<u8>, msg: Seq<u8>) -> Seq<u8>;

/// The message that AES-256-GCM recovers from `sealed` under `key` and
/// `nonce`, without associated data; `None` where it rejects `sealed`.
pub uninterp spec fn aes256gcm_open(key: Seq<u8>, nonce: Seq<u8>, sealed: Seq<u8>) -> Option<
    Seq<u8>,
>;

/// The error of the `aead` traits, as `aes-gcm` exports it: it carries nothing.
#[verifier::external_type_specification]
#[verifier::external_body]
pub struct ExAeadError(aes_gcm::Error);

/// Calls `Sha3_256::digest`. The digest has 32 bytes.
#[verifier::external_body]
pub(crate) fn sha3_256(data: &[u8]) -> (digest: Vec<u8>)
    ensures
        digest@ == sha3_256_digest(data@),
        digest@.len() == 32,
{
    <sha3::Sha3_256 as sha3::Digest>::digest(data).to_vec()
}

/// Calls `Aes256Gcm::encrypt` with a fresh cipher for `key`. The cipher
/// refuses a message of more than 2^36 bytes and no other. What it returns
/// is 16 bytes longer than the message, and `Aes256Gcm::decrypt` recovers
/// the message from it under the same key and nonce.
#[verifier::external_body]
pub(crate) fn aes256gcm_encrypt(key: &[u8], nonce: &[u8], msg: &[u8]) -> (sealed: Result<
    Vec<u8>,
    aes_gcm::Error,
>)
    requires
        key@.len() == KEY_LEN,
        nonce@.len() == NONCE_LEN,
    ensures
        sealed is Ok <==> msg@.len() <= max_message_len(),
        sealed matches Ok(s) ==> {
            &&& s@ == aes256gcm_seal(key@, nonce@, msg@)
            &&& s@.len() == msg@.len() + TAG_LEN
            &&& aes256gcm_open(key@, nonce@, s@) == Some(msg@)
        },
{
    let cipher = <aes_gcm::Aes256Gcm as aes_gcm::KeyInit>::new(aes_gcm::Key::<
        aes_gcm::Aes256Gcm,
    >::from_slice(key));
    aes_gcm::aead::Aead::encrypt(&cipher, aes_gcm::Nonce::from_slice(nonce), msg)
}

/// Calls `Aes256Gcm::decrypt` with a fresh cipher for `key`. A message that
/// it returns is 16 bytes shorter than what it was given.
#[verifier::external_body]
pub(crate) fn aes256gcm_decrypt(key: &[u8], nonce: &[u8], sealed: &[u8]) -> (msg: Result<
    Vec<u8>,
    aes_gcm::Error,
>)
    requires
        key@.len() == KEY_LEN,
        nonce@.len() == NONCE_LEN,
    ensures
        match msg {
            Ok(m) => aes256gcm_open(key@, nonce@, sealed@) == Some(m@) && m@.len() + TAG_LEN
                == sealed@.len(),
            Err(_) => aes256gcm_open(key@, nonce@, sealed@) is None,
        },
{
    let cipher = <aes_gcm::Aes256Gcm as aes_gcm::KeyInit>::new(aes_gcm::Key::<
        aes_gcm::Aes256Gcm,
    >::from_slice(key));
    aes_gcm::aead::Aead::decrypt(&cipher, aes_gcm::Nonce::from_slice(nonce), sealed)
}

} // verus!
