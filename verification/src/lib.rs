//! Cryptographic core of a secrets vault.
//!
//! The library turns a passphrase into a symmetric key (Argon2id), seals and
//! unseals byte blobs under that key (XChaCha20-Poly1305), and hands every
//! secret across its boundary inside a [`VaultBuffer`] whose disposal
//! overwrites the bytes with zero before the memory is given back.

use vstd::prelude::*;

pub mod buffer;
pub mod cipher;
pub mod kdf;
pub mod random;

pub use buffer::VaultBuffer;
pub use buffer::vault_free;
pub use buffer::vault_zeroize;
pub use cipher::vault_seal;
pub use cipher::vault_unseal;
pub use kdf::vault_derive_key;
pub use random::vault_random;

verus! {

/// Key size for XChaCha20-Poly1305 (256 bits).
pub const KEY_SIZE: usize = 32;

/// Nonce size for XChaCha20-Poly1305 (192 bits).
pub const NONCE_SIZE: usize = 24;

/// Poly1305 authentication tag size (128 bits).
pub const TAG_SIZE: usize = 16;

/// Salt size for the key derivation (128 bits).
pub const SALT_SIZE: usize = 16;

/// A sealed message carries a nonce in front and a tag at the end.
pub const SEAL_OVERHEAD: usize = NONCE_SIZE + TAG_SIZE;

/// Status code of a buffer that carries a valid result.
pub const STATUS_OK: i32 = 0;

/// A malformed, absent or wrong-sized argument, or an entropy failure.
pub const ERR_INVALID_INPUT: i32 = -1;

/// Authentication failed: wrong key, or the sealed bytes were altered.
pub const ERR_DECRYPT_FAILED: i32 = -2;

/// The key derivation failed internally.
pub const ERR_KDF_FAILED: i32 = -3;

} // verus!
