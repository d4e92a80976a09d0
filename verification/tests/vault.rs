use vault_core::vault_derive_key;
use vault_core::vault_free;
use vault_core::vault_random;
use vault_core::vault_seal;
use vault_core::vault_unseal;
use vault_core::vault_zeroize;
use vault_core::VaultBuffer;

const ERR_INVALID_INPUT: i32 = -1;
const ERR_DECRYPT_FAILED: i32 = -2;

#[test]
fn test_derive_key() {
    let passphrase = b"test passphrase";
    let salt = [0u8; 16];

    let result = vault_derive_key(passphrase, &salt);
    assert_eq!(result.error, 0);
    assert_eq!(result.data.len(), 32);
    assert!(!result.data.is_empty());

    // Same passphrase + salt = same key (deterministic)
    let result2 = vault_derive_key(passphrase, &salt);
    assert_eq!(result.data, result2.data);

    vault_free(result);
    vault_free(result2);
}

#[test]
fn test_seal_unseal_roundtrip() {
    let key = [0x42u8; 32];
    let plaintext = b"Hello, vault!";

    let sealed = vault_seal(&key, plaintext);
    assert_eq!(sealed.error, 0);
    assert!(sealed.data.len() > plaintext.len()); // nonce + tag overhead

    let unsealed = vault_unseal(&key, &sealed.data);
    assert_eq!(unsealed.error, 0);
    assert_eq!(unsealed.data.len(), plaintext.len());
    assert_eq!(unsealed.data.as_slice(), plaintext);

    vault_free(sealed);
    vault_free(unsealed);
}

#[test]
fn test_wrong_key_fails() {
    let key1 = [0x42u8; 32];
    let key2 = [0x43u8; 32]; // Different key
    let plaintext = b"Secret data";

    let sealed = vault_seal(&key1, plaintext);
    assert_eq!(sealed.error, 0);

    // Try to unseal with wrong key
    let unsealed = vault_unseal(&key2, &sealed.data);
    assert_eq!(unsealed.error, ERR_DECRYPT_FAILED);

    vault_free(sealed);
}

#[test]
fn test_random() {
    let mut buf1 = vec![0u8; 32];
    let mut buf2 = vec![0u8; 32];

    assert_eq!(vault_random(&mut buf1), 0);
    assert_eq!(vault_random(&mut buf2), 0);

    // Extremely unlikely to be equal
    assert_ne!(buf1, buf2);
}

#[test]
fn test_seal_length_is_plaintext_plus_forty() {
    let key = [0x42u8; 32];

    let sealed = vault_seal(&key, b"Hello, vault!");
    assert_eq!(sealed.error, 0);
    assert_eq!(sealed.data.len(), 53);

    let sealed_empty = vault_seal(&key, b"");
    assert_eq!(sealed_empty.error, 0);
    assert_eq!(sealed_empty.data.len(), 40);

    vault_free(sealed);
    vault_free(sealed_empty);
}

#[test]
fn test_roundtrip_empty_message() {
    let key = [0x07u8; 32];

    let sealed = vault_seal(&key, b"");
    assert_eq!(sealed.error, 0);

    let unsealed = vault_unseal(&key, &sealed.data);
    assert_eq!(unsealed.error, 0);
    assert!(unsealed.data.is_empty());

    vault_free(sealed);
    vault_free(unsealed);
}

#[test]
fn test_wrong_key_returns_empty_buffer() {
    let key1 = [0x42u8; 32];
    let key2 = [0x43u8; 32];

    let sealed = vault_seal(&key1, b"Hello, vault!");
    assert_eq!(sealed.error, 0);
    assert_eq!(sealed.data.len(), 53);

    let unsealed = vault_unseal(&key2, &sealed.data);
    assert_eq!(unsealed.error, ERR_DECRYPT_FAILED);
    assert!(unsealed.data.is_empty());

    vault_free(sealed);
}

#[test]
fn test_tamper_detection_every_bit() {
    let key = [0x42u8; 32];
    let plaintext = b"Hello, vault!";

    let sealed = vault_seal(&key, plaintext);
    assert_eq!(sealed.error, 0);

    // Flipping any single bit of the sealed message must make unsealing fail.
    for byte in 0..sealed.data.len() {
        for bit in 0..8 {
            let mut tampered = sealed.data.clone();
            tampered[byte] ^= 1u8 << bit;
            let unsealed = vault_unseal(&key, &tampered);
            assert_eq!(unsealed.error, ERR_DECRYPT_FAILED);
            assert!(unsealed.data.is_empty());
        }
    }

    vault_free(sealed);
}

#[test]
fn test_unseal_below_minimum_length() {
    let key = [0x42u8; 32];

    // One byte below the 40-byte nonce + tag minimum.
    let short = vec![0u8; 39];
    let unsealed = vault_unseal(&key, &short);
    assert_eq!(unsealed.error, ERR_INVALID_INPUT);
    assert!(unsealed.data.is_empty());

    let empty = vault_unseal(&key, b"");
    assert_eq!(empty.error, ERR_INVALID_INPUT);
}

#[test]
fn test_truncated_and_extended_sealed_fail() {
    let key = [0x42u8; 32];

    let sealed = vault_seal(&key, b"Hello, vault!");
    assert_eq!(sealed.error, 0);

    let truncated = vault_unseal(&key, &sealed.data[..sealed.data.len() - 1]);
    assert_eq!(truncated.error, ERR_DECRYPT_FAILED);

    let mut longer = sealed.data.clone();
    longer.push(0u8);
    let extended = vault_unseal(&key, &longer);
    assert_eq!(extended.error, ERR_DECRYPT_FAILED);

    vault_free(sealed);
}

#[test]
fn test_derive_empty_passphrase_rejected() {
    let salt = [0u8; 16];
    let result = vault_derive_key(b"", &salt);
    assert_eq!(result.error, ERR_INVALID_INPUT);
    assert!(result.data.is_empty());
}

#[test]
fn test_derive_salt_matters() {
    let passphrase = b"test passphrase";
    let salt1 = [0u8; 16];
    let salt2 = [1u8; 16];

    let key1 = vault_derive_key(passphrase, &salt1);
    let key2 = vault_derive_key(passphrase, &salt2);
    assert_eq!(key1.error, 0);
    assert_eq!(key2.error, 0);
    assert_ne!(key1.data, key2.data);

    vault_free(key1);
    vault_free(key2);
}

#[test]
fn test_zeroize_scrubs_in_place() {
    let mut buf = vec![0xABu8; 64];
    vault_zeroize(&mut buf);
    assert_eq!(buf.len(), 64);
    assert!(buf.iter().all(|b| *b == 0));
}

#[test]
fn test_random_rejects_empty_buffer() {
    let mut empty: Vec<u8> = Vec::new();
    assert_eq!(vault_random(&mut empty), ERR_INVALID_INPUT);
    assert!(empty.is_empty());
}

#[test]
fn test_buffer_constructors() {
    let ok = VaultBuffer::success(vec![1u8, 2, 3]);
    assert_eq!(ok.error, 0);
    assert_eq!(ok.data, vec![1u8, 2, 3]);
    assert_eq!(ok.len(), 3);

    let failed = VaultBuffer::error(ERR_DECRYPT_FAILED);
    assert_eq!(failed.error, ERR_DECRYPT_FAILED);
    assert!(failed.data.is_empty());
    assert_eq!(failed.len(), 0);

    vault_free(ok);
    vault_free(failed);
}
