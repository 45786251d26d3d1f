//! Fixed-width secret key material, redacted by construction.

use vstd::prelude::*;

verus! {

/// The number of bytes of key material every supported scheme carries here:
/// an Ed25519 secret key and a serialized BLS field element are both 32 bytes.
pub const KEY_LEN: usize = 32;

/// A container for exactly [`KEY_LEN`] secret bytes.
///
/// The type carries no `Debug` impl and no textual rendering at all, so the
/// bytes cannot leak through a generic formatting path; they are reachable
/// only through the explicitly named [`SecretBytes::reveal_bytes`].
pub struct SecretBytes {
    bytes: Vec<u8>,
}

impl View for SecretBytes {
    type V = Seq<u8>;

    closed spec fn view(&self) -> Seq<u8> {
        self.bytes@
    }
}

impl SecretBytes {
    /// The container is well formed when it holds exactly [`KEY_LEN`] bytes.
    pub open spec fn wf(&self) -> bool {
        self@.len() == KEY_LEN
    }

    /// Wraps `bytes` as secret key material; rejects any length but [`KEY_LEN`].
    pub fn new(bytes: Vec<u8>) -> (r: Option<SecretBytes>)
        ensures
            r is Some <==> bytes@.len() == KEY_LEN,
            r matches Some(s) ==> s@ == bytes@ && s.wf(),
    {
        if bytes.len() == KEY_LEN {
            Some(SecretBytes { bytes })
        } else {
            None
        }
    }

    /// Wraps `bytes` whose length is already known to be [`KEY_LEN`].
    pub(crate) fn from_exact(bytes: Vec<u8>) -> (r: SecretBytes)
        requires
            bytes@.len() == KEY_LEN,
        ensures
            r@ == bytes@,
            r.wf(),
    {
        SecretBytes { bytes }
    }

    /// The one deliberate exposure of the raw bytes.
    pub fn reveal_bytes(&self) -> (r: &Vec<u8>)
        ensures
            r@ == self@,
    {
        &self.bytes
    }
}

/// Byte-for-byte comparison of two secret byte containers.
pub fn bytes_eq(a: &SecretBytes, b: &SecretBytes) -> (r: bool)
    ensures
        r == (a@ == b@),
{
    if a.bytes.len() != b.bytes.len() {
        return false;
    }
    let n = a.bytes.len();
    let mut i: usize = 0;
    while i < n
        invariant
            n == a@.len(),
            n == b@.len(),
            i <= n,
            forall|j: int| 0 <= j < i ==> a@[j] == b@[j],
        decreases n - i,
    {
        if a.bytes[i] != b.bytes[i] {
            return false;
        }
        i += 1;
    }
    proof {
        assert(a@ =~= b@);
    }
    true
}

} // verus!
