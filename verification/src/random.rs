//! A stateless pass-through to the operating system's entropy source.

use vstd::prelude::*;

use crate::ERR_INVALID_INPUT;
use crate::STATUS_OK;

verus! {

/// Relies on `getrandom::getrandom`: it fills the whole slice with bytes from
/// the operating system's secure entropy source, or reports failure. Nothing
/// is promised of the bytes themselves; on failure the contents are
/// unspecified but the length is untouched.
#[verifier::external_body]
pub(crate) fn os_random_fill(out: &mut Vec<u8>) -> (ok: bool)
    ensures
        final(out)@.len() == old(out)@.len(),
{
    getrandom::getrandom(out.as_mut_slice()).is_ok()
}

/// Fills the caller's buffer with cryptographically secure random bytes.
///
/// Rejects an empty buffer, and reports `ERR_INVALID_INPUT` when the entropy
/// source fails — it never falls back to a weaker source.
pub fn vault_random(out: &mut Vec<u8>) -> (status: i32)
    ensures
        final(out)@.len() == old(out)@.len(),
        status == STATUS_OK || status == ERR_INVALID_INPUT,
        old(out)@.len() == 0 ==> status == ERR_INVALID_INPUT && final(out)@ == old(out)@,
{
    if out.len() == 0 {
        return ERR_INVALID_INPUT;
    }
    if os_random_fill(out) {
        STATUS_OK
    } else {
        ERR_INVALID_INPUT
    }
}

} // verus!
