//! Passphrase-to-key derivation, memory-hard by construction (Argon2id).

use vstd::prelude::*;

use argon2::Algorithm;
use argon2::Argon2;
use argon2::Params;
use argon2::Version;
use zeroize::Zeroize;

use crate::buffer::VaultBuffer;
use crate::ERR_INVALID_INPUT;
use crate::ERR_KDF_FAILED;
use crate::KEY_SIZE;
use crate::STATUS_OK;

verus! {

/// Memory cost of the derivation, in KiB (64 MiB).
pub const ARGON2_M_COST: u32 = 65536;

/// Time cost of the derivation: three passes over the memory.
pub const ARGON2_T_COST: u32 = 3;

/// Parallelism of the derivation: four lanes.
pub const ARGON2_P_COST: u32 = 4;

/// Longest passphrase the boundary carries: lengths are 32-bit values.
pub const MAX_PASSPHRASE_LEN: usize = 0xFFFF_FFFF;

/// The 32-byte key that Argon2id — version 0x13, memory cost 65536 KiB, time
/// cost 3, parallelism 4 — derives from a passphrase and a salt. A function
/// of the two inputs alone: the derivation draws no randomness.
pub uninterp spec fn argon2id_key(passphrase: Seq<u8>, salt: Seq<u8>) -> Seq<u8>;

/// Relies on `argon2::Argon2::hash_password_into` with the Argon2id
/// algorithm, version 0x13, and the given costs: the derived key depends on
/// the passphrase and the salt alone, and the derivation succeeds for every
/// passphrase of at most `u32::MAX` bytes once the salt is 16 bytes and the
/// output 32 — every other error path of the call is conditioned on sizes
/// this signature and these bounds exclude. On the failure path the
/// partially written key buffer is zeroized before it is dropped.
#[verifier::external_body]
fn argon2id_derive(
    passphrase: &[u8],
    salt: &[u8; 16],
    m_cost: u32,
    t_cost: u32,
    p_cost: u32,
    out_len: usize,
) -> (r: Option<Vec<u8>>)
    requires
        m_cost == ARGON2_M_COST,
        t_cost == ARGON2_T_COST,
        p_cost == ARGON2_P_COST,
        out_len == KEY_SIZE,
    ensures
        r matches Some(k) ==> k@ == argon2id_key(passphrase@, salt@) && k@.len() == KEY_SIZE,
        passphrase@.len() <= MAX_PASSPHRASE_LEN ==> r is Some,
{
    let params = match Params::new(m_cost, t_cost, p_cost, Some(out_len)) {
        Ok(p) => p,
        Err(_) => return None,
    };
    let argon2 = Argon2::new(Algorithm::Argon2id, Version::V0x13, params);
    let mut key = vec![0u8; out_len];
    match argon2.hash_password_into(passphrase, salt, &mut key) {
        Ok(()) => Some(key),
        Err(_) => {
            key.zeroize();
            None
        },
    }
}

/// Derives a 32-byte key from a passphrase and a 16-byte salt.
///
/// Deterministic: equal passphrase and salt always derive the equal key.
/// An empty or oversized passphrase is rejected as invalid input before any
/// work is done; the salt cannot be the wrong size by construction.
pub fn vault_derive_key(passphrase: &[u8], salt: &[u8; 16]) -> (r: VaultBuffer)
    ensures
        r.wf(),
        r.error == STATUS_OK || r.error == ERR_INVALID_INPUT,
        r.error == ERR_INVALID_INPUT <==> (passphrase@.len() == 0 || passphrase@.len()
            > MAX_PASSPHRASE_LEN),
        r.error == STATUS_OK ==> r.data@ == argon2id_key(passphrase@, salt@) && r.data@.len()
            == KEY_SIZE,
{
    if passphrase.len() == 0 || passphrase.len() > MAX_PASSPHRASE_LEN {
        return VaultBuffer::error(ERR_INVALID_INPUT);
    }
    match argon2id_derive(
        passphrase,
        salt,
        ARGON2_M_COST,
        ARGON2_T_COST,
        ARGON2_P_COST,
        KEY_SIZE,
    ) {
        Some(key) => VaultBuffer::success(key),
        None => VaultBuffer::error(ERR_KDF_FAILED),
    }
}

/// Determinism of the derivation: the key is a function of the passphrase
/// and the salt alone, so equal inputs always yield the identical key.
pub proof fn lemma_derive_deterministic(p1: Seq<u8>, s1: Seq<u8>, p2: Seq<u8>, s2: Seq<u8>)
    requires
        p1 == p2,
        s1 == s2,
    ensures
        argon2id_key(p1, s1) == argon2id_key(p2, s2),
{
}

} // verus!
