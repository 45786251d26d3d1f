//! Conversions from the native BLS secret key types of `threshold_crypto`.
//!
//! The native types are opaque here; what the library keeps of them is their
//! serialized byte form, 32 bytes for both a full key and a share, obtained
//! through a trusted call into `bincode` over `threshold_crypto`'s
//! `SerdeSecret` wrapper.

use crate::secret_bytes::SecretBytes;
use crate::secret_key::{KeyView, SecretKey};
use threshold_crypto::SecretKey as NativeBlsKey;
use threshold_crypto::SecretKeyShare as NativeBlsKeyShare;
use vstd::prelude::*;
use vstd::std_specs::cmp::PartialEqSpec;

verus! {

#[verifier::external_type_specification]
#[verifier::external_body]
pub struct ExBlsKey(NativeBlsKey);

#[verifier::external_type_specification]
#[verifier::external_body]
pub struct ExBlsKeyShare(NativeBlsKeyShare);

/// The serialized byte form of a native full BLS secret key: the canonical
/// representation of its secret field element under a fixed little-endian
/// encoding, a function of the key alone on every machine.
pub uninterp spec fn bls_byte_form(sk: NativeBlsKey) -> Seq<u8>;

/// The serialized byte form of a native BLS secret key share, likewise a
/// function of the share alone.
pub uninterp spec fn bls_share_byte_form(share: NativeBlsKeyShare) -> Seq<u8>;

/// Relies on `bincode::serialize` (fixed-width little-endian integers, no
/// size limit, writing into a growable buffer, hence infallible) over
/// `threshold_crypto::serde_impl::SerdeSecret`, whose `Serialize` impl for a
/// full BLS secret key writes the secret field element's canonical
/// representation as four 64-bit limbs: the result is exactly 32 bytes and
/// depends on the key alone.
#[verifier::external_body]
fn bls_secret_key_bytes(sk: &NativeBlsKey) -> (r: Vec<u8>)
    ensures
        r@ == bls_byte_form(*sk),
        r@.len() == crate::secret_bytes::KEY_LEN,
{
    bincode::serialize(&threshold_crypto::serde_impl::SerdeSecret(sk)).unwrap()
}

/// Relies on `bincode::serialize` as above; `threshold_crypto`'s
/// `SerializeSecret` impl for a BLS secret key share delegates to the full
/// key it wraps, so the result is likewise exactly 32 bytes and depends on
/// the share alone.
#[verifier::external_body]
fn bls_secret_key_share_bytes(share: &NativeBlsKeyShare) -> (r: Vec<u8>)
    ensures
        r@ == bls_share_byte_form(*share),
        r@.len() == crate::secret_bytes::KEY_LEN,
{
    bincode::serialize(&threshold_crypto::serde_impl::SerdeSecret(share)).unwrap()
}

impl SecretKey {
    /// Wraps a native full BLS secret key, keeping its serialized byte form.
    /// The conversion is total and always yields the `Bls` variant.
    pub fn from_native_bls(sk: NativeBlsKey) -> (r: SecretKey)
        ensures
            r@ == KeyView::Bls(bls_byte_form(sk)),
            r@ is Bls,
            r.wf(),
    {
        let bytes = bls_secret_key_bytes(&sk);
        match SecretBytes::new(bytes) {
            Some(material) => SecretKey::from_bls(material),
            None => vstd::pervasive::unreached(),
        }
    }

    /// Wraps a native BLS secret key share, keeping its serialized byte
    /// form. The conversion is total and always yields the `BlsShare`
    /// variant.
    pub fn from_native_bls_share(share: NativeBlsKeyShare) -> (r: SecretKey)
        ensures
            r@ == KeyView::BlsShare(bls_share_byte_form(share)),
            r@ is BlsShare,
            r.wf(),
    {
        let bytes = bls_secret_key_share_bytes(&share);
        match SecretBytes::new(bytes) {
            Some(material) => SecretKey::from_bls_share(material),
            None => vstd::pervasive::unreached(),
        }
    }
}

/// Law: wrapping a given BLS secret key twice yields equal values. The
/// serialized byte form depends on the key alone, so two results of
/// [`SecretKey::from_native_bls`] on equal native keys are equal in view and
/// compare equal under the type's equality.
pub proof fn lemma_native_bls_wrap_idempotent(
    sk1: NativeBlsKey,
    sk2: NativeBlsKey,
    r1: SecretKey,
    r2: SecretKey,
)
    requires
        sk1 == sk2,
        r1@ == KeyView::Bls(bls_byte_form(sk1)),
        r2@ == KeyView::Bls(bls_byte_form(sk2)),
    ensures
        r1@ == r2@,
        r1.eq_spec(&r2),
{
}

} // verus!
