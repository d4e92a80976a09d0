//! The ownership contract for every buffer the library hands out.
//!
//! A [`VaultBuffer`] either carries a result (`error == 0`) or only a status
//! code and no data. Ownership transfers fully to the caller on return; the
//! library keeps no alias. Disposal through [`vault_free`] overwrites every
//! byte with zero before the memory is given back, and [`vault_zeroize`]
//! scrubs a caller-owned buffer in place without deallocating it.

use vstd::prelude::*;
use zeroize::Zeroize;

use crate::STATUS_OK;

verus! {

/// Result buffer returned by the vault operations.
///
/// Invariant: a buffer that carries an error code carries no data.
pub struct VaultBuffer {
    /// The bytes, owned by this buffer and by nobody else.
    pub data: Vec<u8>,
    /// Status code: `0` is success, anything else an error.
    pub error: i32,
}

impl VaultBuffer {
    /// A buffer is well formed when an error leaves it empty.
    pub open spec fn wf(&self) -> bool {
        self.error != STATUS_OK ==> self.data@.len() == 0
    }

    /// Wraps `data` as a successful result; the caller now owns the bytes.
    pub fn success(data: Vec<u8>) -> (r: Self)
        ensures
            r.wf(),
            r.error == STATUS_OK,
            r.data@ == data@,
    {
        Self { data, error: STATUS_OK }
    }

    /// An empty buffer that carries only the status code `code`.
    pub fn error(code: i32) -> (r: Self)
        ensures
            r.wf(),
            r.error == code,
            r.data@.len() == 0,
    {
        Self { data: Vec::new(), error: code }
    }

    /// Number of bytes the buffer carries.
    pub fn len(&self) -> (n: usize)
        ensures
            n == self.data@.len(),
    {
        self.data.len()
    }
}

/// Relies on `zeroize::Zeroize` for `[u8]`: it overwrites every byte of the
/// slice with zero, through writes the compiler may not elide, and leaves the
/// length unchanged.
#[verifier::external_body]
fn zeroize_bytes(buf: &mut Vec<u8>)
    ensures
        final(buf)@.len() == old(buf)@.len(),
        forall|i: int| 0 <= i < final(buf)@.len() ==> final(buf)@[i] == 0u8,
{
    buf.as_mut_slice().zeroize();
}

/// Scrubs a caller-owned buffer in place: every byte becomes zero, the
/// allocation stays with the caller.
pub fn vault_zeroize(buf: &mut Vec<u8>)
    ensures
        final(buf)@.len() == old(buf)@.len(),
        forall|i: int| 0 <= i < final(buf)@.len() ==> final(buf)@[i] == 0u8,
{
    zeroize_bytes(buf);
}

/// Disposes of a buffer: overwrites every byte with zero, then lets the
/// allocation go. The sole sanctioned way to drop an owned [`VaultBuffer`];
/// the move makes a second release of the same buffer unwritable.
pub fn vault_free(buf: VaultBuffer) {
    let VaultBuffer { data: mut bytes, error: _ } = buf;
    zeroize_bytes(&mut bytes);
}

} // verus!
