//! Compile-time configuration: supported key sizes, GCM parameters, and the
//! maximum payload sizes the memory pool is sized for. The two ends of a
//! channel must agree on these values for buffer-size assumptions to hold.
use vstd::prelude::*;

verus! {

/// Key size in bytes of the 128-bit cipher suite.
pub const KEY128_SIZE: usize = 16;

/// Key size in bytes of the 256-bit cipher suite.
pub const KEY256_SIZE: usize = 32;

/// Nonce size in bytes used by both GCM cipher suites (96 bits).
pub const GCM_NONCE_SIZE: usize = 12;

/// Authentication tag size in bytes used by both GCM cipher suites (128 bits).
pub const GCM_TAG_SIZE: usize = 16;

/// Seed size in bytes expected by the random-bit generator (256 bits).
pub const SEED_SIZE: usize = 32;

/// Largest plaintext a single encryption or decryption job may carry.
pub const MAX_PLAINTEXT_SIZE: usize = 4096;

/// Largest ciphertext body (without the tag) a single job may carry.
/// Equal to the plaintext bound: GCM keeps the message length.
pub const MAX_CIPHERTEXT_SIZE: usize = 4096;

/// Largest associated-data input a single job may carry.
pub const MAX_ASSOCIATED_DATA_SIZE: usize = 4096;

/// Largest random-byte request the pool can back.
pub const MAX_RANDOM_SIZE: usize = 1024;

} // verus!
