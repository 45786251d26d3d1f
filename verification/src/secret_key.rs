//! The tagged union over the supported secret key schemes.

use crate::secret_bytes::SecretBytes;
use vstd::prelude::*;
use vstd::std_specs::cmp::PartialEqSpec;

verus! {

/// The mathematical content of a [`SecretKey`]: which scheme it belongs to,
/// and the key bytes it carries.
pub enum KeyView {
    Ed25519(Seq<u8>),
    Bls(Seq<u8>),
    BlsShare(Seq<u8>),
}

/// The key bytes a [`KeyView`] carries, whatever its variant.
pub open spec fn view_bytes(v: KeyView) -> Seq<u8> {
    match v {
        KeyView::Ed25519(b) => b,
        KeyView::Bls(b) => b,
        KeyView::BlsShare(b) => b,
    }
}

/// A [`KeyView`] is well formed when it carries exactly
/// [`crate::secret_bytes::KEY_LEN`] bytes.
pub open spec fn wf_view(v: KeyView) -> bool {
    view_bytes(v).len() == crate::secret_bytes::KEY_LEN
}

/// Wrapper for different secret key types.
///
/// Exactly one variant is populated at a time; a BLS key share is a distinct
/// variant from a full BLS key and the two never compare equal.
pub enum SecretKey {
    /// Ed25519 secret key.
    Ed25519(SecretBytes),
    /// BLS secret key.
    Bls(SecretBytes),
    /// BLS secret key share.
    BlsShare(SecretBytes),
}

impl View for SecretKey {
    type V = KeyView;

    open spec fn view(&self) -> KeyView {
        match self {
            SecretKey::Ed25519(s) => KeyView::Ed25519(s@),
            SecretKey::Bls(s) => KeyView::Bls(s@),
            SecretKey::BlsShare(s) => KeyView::BlsShare(s@),
        }
    }
}

/// What [`SecretKey::display_string`] returns for a given view: a fixed
/// placeholder per variant, independent of the key bytes.
pub open spec fn spec_display(v: KeyView) -> Seq<char> {
    match v {
        KeyView::Ed25519(_) => "Ed25519(<redacted>)"@,
        KeyView::Bls(_) => "Bls(<redacted>)"@,
        KeyView::BlsShare(_) => "BlsShare(<redacted>)"@,
    }
}

impl SecretKey {
    /// The key material held, whichever variant is populated.
    pub open spec fn wf(&self) -> bool {
        wf_view(self@)
    }

    /// Wraps raw Ed25519 secret key material; an infallible wrap.
    pub fn from_ed25519(bytes: SecretBytes) -> (r: SecretKey)
        requires
            bytes.wf(),
        ensures
            r@ == KeyView::Ed25519(bytes@),
            r.wf(),
    {
        SecretKey::Ed25519(bytes)
    }

    /// Wraps the byte form of a full BLS secret key; an infallible wrap that
    /// always yields the `Bls` variant.
    pub fn from_bls(key: SecretBytes) -> (r: SecretKey)
        requires
            key.wf(),
        ensures
            r@ == KeyView::Bls(key@),
            r@ is Bls,
            r.wf(),
    {
        SecretKey::Bls(key)
    }

    /// Wraps the byte form of one share of a threshold-split BLS secret key;
    /// an infallible wrap that always yields the `BlsShare` variant.
    pub fn from_bls_share(share: SecretBytes) -> (r: SecretKey)
        requires
            share.wf(),
        ensures
            r@ == KeyView::BlsShare(share@),
            r@ is BlsShare,
            r.wf(),
    {
        SecretKey::BlsShare(share)
    }

    /// Renders the key for display: the variant name and a fixed placeholder,
    /// never the key bytes themselves.
    pub fn display_string(&self) -> (r: String)
        ensures
            r@ == spec_display(self@),
    {
        match self {
            SecretKey::Ed25519(_) => "Ed25519(<redacted>)".to_owned(),
            SecretKey::Bls(_) => "Bls(<redacted>)".to_owned(),
            SecretKey::BlsShare(_) => "BlsShare(<redacted>)".to_owned(),
        }
    }
}

impl PartialEq for SecretKey {
    /// Equality is view equality: same variant, same key bytes.
    fn eq(&self, other: &SecretKey) -> (r: bool) {
        match (self, other) {
            (SecretKey::Ed25519(a), SecretKey::Ed25519(b)) => crate::secret_bytes::bytes_eq(
                a,
                b,
            ),
            (SecretKey::Bls(a), SecretKey::Bls(b)) => crate::secret_bytes::bytes_eq(a, b),
            (SecretKey::BlsShare(a), SecretKey::BlsShare(b)) => crate::secret_bytes::bytes_eq(
                a,
                b,
            ),
            _ => false,
        }
    }
}

impl vstd::std_specs::cmp::PartialEqSpecImpl for SecretKey {
    open spec fn obeys_eq_spec() -> bool {
        true
    }

    open spec fn eq_spec(&self, other: &SecretKey) -> bool {
        self@ == other@
    }
}

/// Law: rendering reveals nothing but the variant tag. Any two keys of the
/// same variant render to the same string, whatever bytes they hold — in
/// particular, a `Bls`- or `BlsShare`-tagged key never shows its secret
/// scalar bytes.
pub proof fn lemma_display_independent_of_bytes(a: KeyView, b: KeyView)
    requires
        (a is Ed25519) == (b is Ed25519),
        (a is Bls) == (b is Bls),
        (a is BlsShare) == (b is BlsShare),
    ensures
        spec_display(a) == spec_display(b),
{
}

/// Law: a share of a BLS secret key is never interchangeable with a full
/// key. Keys of different variants are unequal, whatever bytes they hold.
pub proof fn lemma_variants_never_conflated(a: SecretKey, b: SecretKey)
    requires
        !((a@ is Ed25519) == (b@ is Ed25519) && (a@ is Bls) == (b@ is Bls) && (a@ is BlsShare)
            == (b@ is BlsShare)),
    ensures
        !a.eq_spec(&b),
{
}

/// Law: the BLS wrap is deterministic. Two wrapped keys whose
/// [`SecretKey::from_bls`] inputs held equal bytes are equal in view, and so
/// compare equal under the type's equality.
pub proof fn lemma_bls_wrap_deterministic(r1: SecretKey, r2: SecretKey, a: Seq<u8>, b: Seq<u8>)
    requires
        a == b,
        r1@ == KeyView::Bls(a),
        r2@ == KeyView::Bls(b),
    ensures
        r1@ == r2@,
        r1.eq_spec(&r2),
{
}

} // verus!
