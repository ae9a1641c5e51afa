//! Cryptographic building blocks of a pepper service: a hybrid public-key
//! encryption scheme over Curve25519 with AES-256-GCM, and a verifiable
//! unpredictable function over the BLS12-381 pairing.
//!
//! Every scheme is a stateless set of functions on byte strings. The group
//! arithmetic, the hash functions and the cipher are supplied by outside
//! crates; what those return is named by uninterpreted specification
//! functions, and the framing, validation and error reporting around them are
//! verified against contracts written over those names.

pub mod asymmetric_encryption;
pub mod bytes;
pub mod elgamal;
pub mod error;
pub mod format;
pub mod random;
pub mod symmetric;
pub mod vuf;
