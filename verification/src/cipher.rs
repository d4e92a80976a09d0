//! Authenticated encryption of byte blobs (XChaCha20-Poly1305).
//!
//! A sealed message is `nonce(24) ‖ ciphertext(n) ‖ tag(16)`: self-describing,
//! no header. The nonce is drawn fresh from the operating system's entropy
//! source on every seal; the extended 192-bit nonce makes such random,
//! uncoordinated nonces safe against collision over the lifetime of a key.

use vstd::prelude::*;
use vstd::slice::slice_subrange;

use chacha20poly1305::aead::Aead;
use chacha20poly1305::aead::KeyInit;
use chacha20poly1305::XChaCha20Poly1305;
use chacha20poly1305::XNonce;

use crate::buffer::VaultBuffer;
use crate::random::os_random_fill;
use crate::ERR_DECRYPT_FAILED;
use crate::ERR_INVALID_INPUT;
use crate::KEY_SIZE;
use crate::NONCE_SIZE;
use crate::SEAL_OVERHEAD;
use crate::STATUS_OK;
use crate::TAG_SIZE;

verus! {

/// Longest plaintext the boundary carries: lengths are 32-bit values, and
/// the stream cipher's own block limit lies far above this.
pub const MAX_MESSAGE_LEN: usize = 0xFFFF_FFFF;

/// The ciphertext-with-tag that XChaCha20-Poly1305 produces for a key, a
/// nonce and a plaintext: `n` encrypted bytes followed by the 16-byte
/// Poly1305 tag. A function of the three inputs alone.
pub uninterp spec fn xchacha_seal_bytes(key: Seq<u8>, nonce: Seq<u8>, plaintext: Seq<u8>) -> Seq<
    u8,
>;

/// `sealed` opens under `key` to the plaintext `m`: its first 24 bytes are a
/// nonce, and the rest is exactly the ciphertext-with-tag of `m` under `key`
/// and that nonce.
pub open spec fn opens_to(key: Seq<u8>, sealed: Seq<u8>, m: Seq<u8>) -> bool {
    &&& m.len() <= MAX_MESSAGE_LEN
    &&& sealed.len() == m.len() + SEAL_OVERHEAD
    &&& sealed.subrange(NONCE_SIZE as int, sealed.len() as int) == xchacha_seal_bytes(
        key,
        sealed.subrange(0, NONCE_SIZE as int),
        m,
    )
}

/// Relies on `chacha20poly1305::XChaCha20Poly1305` through `aead::Aead::
/// encrypt`: the result is the ciphertext of `plaintext` with the 16-byte
/// Poly1305 tag appended, a function of key, nonce and plaintext alone. The
/// call refuses only messages beyond the stream cipher's block limit, which
/// lies far above `MAX_MESSAGE_LEN`.
#[verifier::external_body]
fn xchacha_encrypt(key: &[u8], nonce: &[u8], plaintext: &[u8]) -> (r: Option<Vec<u8>>)
    requires
        key@.len() == KEY_SIZE,
        nonce@.len() == NONCE_SIZE,
    ensures
        r matches Some(c) ==> c@ == xchacha_seal_bytes(key@, nonce@, plaintext@) && c@.len()
            == plaintext@.len() + TAG_SIZE,
        plaintext@.len() <= MAX_MESSAGE_LEN ==> r is Some,
{
    let cipher = match XChaCha20Poly1305::new_from_slice(key) {
        Ok(c) => c,
        Err(_) => return None,
    };
    cipher.encrypt(XNonce::from_slice(nonce), plaintext).ok()
}

/// Relies on `chacha20poly1305::XChaCha20Poly1305` through `aead::Aead::
/// decrypt`, which verifies the Poly1305 tag and only then reverses the
/// keystream: it returns a plaintext exactly when the input is the
/// ciphertext-with-tag of that plaintext under the key and nonce — the
/// keystream makes encryption an involution, so the opening plaintext is
/// recovered whenever one exists, and a wrong key, an altered byte or a
/// wrong length leaves the tag invalid and the call failing.
#[verifier::external_body]
fn xchacha_decrypt(key: &[u8], nonce: &[u8], ciphertext: &[u8]) -> (r: Option<Vec<u8>>)
    requires
        key@.len() == KEY_SIZE,
        nonce@.len() == NONCE_SIZE,
    ensures
        r matches Some(p) ==> p@.len() + TAG_SIZE == ciphertext@.len() && ciphertext@
            == xchacha_seal_bytes(key@, nonce@, p@),
        r matches Some(p) ==> forall|m: Seq<u8>|
            m.len() <= MAX_MESSAGE_LEN && ciphertext@ == xchacha_seal_bytes(key@, nonce@, m)
                ==> p@ == m,
        r is None ==> forall|m: Seq<u8>|
            m.len() <= MAX_MESSAGE_LEN ==> ciphertext@ != xchacha_seal_bytes(key@, nonce@, m),
{
    let cipher = match XChaCha20Poly1305::new_from_slice(key) {
        Ok(c) => c,
        Err(_) => return None,
    };
    cipher.decrypt(XNonce::from_slice(nonce), ciphertext).ok()
}

/// A vector of `len` zero bytes.
fn zero_vec(len: usize) -> (v: Vec<u8>)
    ensures
        v@.len() == len,
        forall|i: int| 0 <= i < v@.len() ==> v@[i] == 0u8,
{
    let mut v: Vec<u8> = Vec::new();
    while v.len() < len
        invariant
            v@.len() <= len,
            forall|i: int| 0 <= i < v@.len() ==> v@[i] == 0u8,
        decreases len - v@.len(),
    {
        v.push(0u8);
    }
    v
}

/// Round trip: prefixing any 24-byte nonce to the ciphertext-with-tag of a
/// message `m` yields a sealed message that opens, under the sealing key, to
/// `m` — so `vault_unseal` under that key returns exactly `m`.
pub proof fn lemma_seal_roundtrip(key: Seq<u8>, nonce: Seq<u8>, m: Seq<u8>, ct: Seq<u8>)
    requires
        nonce.len() == NONCE_SIZE,
        m.len() <= MAX_MESSAGE_LEN,
        ct.len() == m.len() + TAG_SIZE,
        ct == xchacha_seal_bytes(key, nonce, m),
    ensures
        opens_to(key, nonce + ct, m),
{
    assert((nonce + ct).subrange(0, NONCE_SIZE as int) =~= nonce);
    assert((nonce + ct).subrange(NONCE_SIZE as int, (nonce + ct).len() as int) =~= ct);
}

/// Seals `plaintext` under `key`: draws a fresh 24-byte nonce from the
/// operating system's entropy source, encrypts, and returns
/// `nonce ‖ ciphertext ‖ tag` — 40 bytes longer than the plaintext.
///
/// Fails with `ERR_INVALID_INPUT` on an oversized plaintext, or when the
/// entropy source fails — it never falls back to a weaker source or a fixed
/// nonce.
pub fn vault_seal(key: &[u8; 32], plaintext: &[u8]) -> (r: VaultBuffer)
    ensures
        r.wf(),
        r.error == STATUS_OK || r.error == ERR_INVALID_INPUT,
        plaintext@.len() > MAX_MESSAGE_LEN ==> r.error == ERR_INVALID_INPUT,
        r.error == STATUS_OK ==> r.data@.len() == plaintext@.len() + SEAL_OVERHEAD && opens_to(
            key@,
            r.data@,
            plaintext@,
        ),
{
    if plaintext.len() > MAX_MESSAGE_LEN {
        return VaultBuffer::error(ERR_INVALID_INPUT);
    }
    let mut nonce: Vec<u8> = zero_vec(NONCE_SIZE);
    if !os_random_fill(&mut nonce) {
        return VaultBuffer::error(ERR_INVALID_INPUT);
    }
    match xchacha_encrypt(key.as_slice(), nonce.as_slice(), plaintext) {
        Some(mut ciphertext) => {
            let ghost nonce_seq = nonce@;
            let ghost ct_seq = ciphertext@;
            let mut sealed = nonce;
            sealed.append(&mut ciphertext);
            proof {
                lemma_seal_roundtrip(key@, nonce_seq, plaintext@, ct_seq);
            }
            VaultBuffer::success(sealed)
        },
        None => VaultBuffer::error(ERR_INVALID_INPUT),
    }
}

/// Unseals a message sealed by [`vault_seal`]: splits off the leading
/// 24-byte nonce and decrypts the rest, verifying the tag in the same atomic
/// operation.
///
/// An input shorter than the 40-byte overhead, or longer than the boundary's
/// 32-bit lengths allow, is rejected as invalid before any cryptographic
/// work. Any tag mismatch — wrong key, altered bytes, wrong length — fails
/// with `ERR_DECRYPT_FAILED` and an empty buffer, with nothing to tell those
/// cases apart. Together with the contract of [`vault_seal`], the last
/// clause is the round trip: whatever a seal under `key` returned opens here,
/// under the same `key`, to exactly the sealed plaintext.
pub fn vault_unseal(key: &[u8; 32], sealed: &[u8]) -> (r: VaultBuffer)
    ensures
        r.wf(),
        sealed@.len() < SEAL_OVERHEAD || sealed@.len() > MAX_MESSAGE_LEN + SEAL_OVERHEAD
            ==> r.error == ERR_INVALID_INPUT,
        SEAL_OVERHEAD <= sealed@.len() <= MAX_MESSAGE_LEN + SEAL_OVERHEAD ==> r.error == STATUS_OK
            || r.error == ERR_DECRYPT_FAILED,
        r.error == STATUS_OK ==> opens_to(key@, sealed@, r.data@),
        forall|m: Seq<u8>| opens_to(key@, sealed@, m) ==> r.error == STATUS_OK && r.data@ == m,
{
    if sealed.len() < SEAL_OVERHEAD {
        return VaultBuffer::error(ERR_INVALID_INPUT);
    }
    if sealed.len() - SEAL_OVERHEAD > MAX_MESSAGE_LEN {
        return VaultBuffer::error(ERR_INVALID_INPUT);
    }
    let nonce: &[u8] = slice_subrange(sealed, 0, NONCE_SIZE);
    let ciphertext: &[u8] = slice_subrange(sealed, NONCE_SIZE, sealed.len());
    match xchacha_decrypt(key.as_slice(), nonce, ciphertext) {
        Some(plaintext) => VaultBuffer::success(plaintext),
        None => VaultBuffer::error(ERR_DECRYPT_FAILED),
    }
}

} // verus!
