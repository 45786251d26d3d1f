//! A stable, round-trippable byte encoding for [`SecretKey`].
//!
//! The encoding is one tag byte naming the variant, followed by the 32 key
//! bytes. Decoding rejects any other length and any unknown tag, and never
//! substitutes a default key for malformed input.

use crate::secret_bytes::{KEY_LEN, SecretBytes};
use crate::secret_key::{KeyView, SecretKey, view_bytes, wf_view};
use vstd::prelude::*;

verus! {

/// Tag byte of the `Ed25519` variant.
pub const TAG_ED25519: u8 = 0;

/// Tag byte of the `Bls` variant.
pub const TAG_BLS: u8 = 1;

/// Tag byte of the `BlsShare` variant.
pub const TAG_BLS_SHARE: u8 = 2;

/// Length of every encoded key: one tag byte plus the key bytes.
pub const ENCODED_LEN: usize = 33;

/// The tag byte that encodes a view's variant.
pub open spec fn tag_of(v: KeyView) -> u8 {
    match v {
        KeyView::Ed25519(_) => TAG_ED25519,
        KeyView::Bls(_) => TAG_BLS,
        KeyView::BlsShare(_) => TAG_BLS_SHARE,
    }
}

/// Whether a byte is the tag of some variant.
pub open spec fn valid_tag(t: u8) -> bool {
    t == TAG_ED25519 || t == TAG_BLS || t == TAG_BLS_SHARE
}

/// The encoded form of a view: its tag byte, then its key bytes.
pub open spec fn spec_serialize(v: KeyView) -> Seq<u8> {
    seq![tag_of(v)] + view_bytes(v)
}

/// Why a byte string failed to decode.
#[derive(Clone, Copy, PartialEq, Eq, Structural, Debug)]
pub enum DecodeError {
    /// The input is not exactly [`ENCODED_LEN`] bytes long.
    BadLength,
    /// The first byte names no variant.
    BadTag,
}

/// The view a byte string decodes to, or the error saying why it cannot.
pub open spec fn spec_deserialize(b: Seq<u8>) -> Result<KeyView, DecodeError> {
    if b.len() != ENCODED_LEN {
        Err(DecodeError::BadLength)
    } else if b[0] == TAG_ED25519 {
        Ok(KeyView::Ed25519(b.subrange(1, ENCODED_LEN as int)))
    } else if b[0] == TAG_BLS {
        Ok(KeyView::Bls(b.subrange(1, ENCODED_LEN as int)))
    } else if b[0] == TAG_BLS_SHARE {
        Ok(KeyView::BlsShare(b.subrange(1, ENCODED_LEN as int)))
    } else {
        Err(DecodeError::BadTag)
    }
}

/// Encodes a key as its tag byte followed by its key bytes.
pub fn serialize(key: &SecretKey) -> (r: Vec<u8>)
    requires
        key.wf(),
    ensures
        r@ == spec_serialize(key@),
        r@.len() == ENCODED_LEN,
{
    let (tag, bytes): (u8, &SecretBytes) = match key {
        SecretKey::Ed25519(s) => (TAG_ED25519, s),
        SecretKey::Bls(s) => (TAG_BLS, s),
        SecretKey::BlsShare(s) => (TAG_BLS_SHARE, s),
    };
    let raw = bytes.reveal_bytes();
    let mut out: Vec<u8> = Vec::new();
    out.push(tag);
    let mut i: usize = 0;
    while i < raw.len()
        invariant
            raw@ == view_bytes(key@),
            tag == tag_of(key@),
            i <= raw@.len(),
            out@ == seq![tag].add(raw@.subrange(0, i as int)),
        decreases raw@.len() - i,
    {
        out.push(raw[i]);
        i += 1;
    }
    proof {
        assert(raw@.subrange(0, raw@.len() as int) =~= raw@);
        assert(out@ =~= spec_serialize(key@));
    }
    out
}

/// Decodes a byte string produced by [`serialize`]; decoding succeeds exactly
/// on inputs of [`ENCODED_LEN`] bytes whose first byte is a valid tag, and
/// each malformed input is reported as the matching [`DecodeError`].
pub fn deserialize(bytes: &Vec<u8>) -> (r: Result<SecretKey, DecodeError>)
    ensures
        r matches Ok(key) ==> key.wf() && spec_deserialize(bytes@) == Ok::<KeyView, DecodeError>(
            key@,
        ),
        r matches Err(e) ==> spec_deserialize(bytes@) == Err::<KeyView, DecodeError>(e),
        r is Ok <==> bytes@.len() == ENCODED_LEN && valid_tag(bytes@[0]),
{
    if bytes.len() != ENCODED_LEN {
        return Err(DecodeError::BadLength);
    }
    let tag = bytes[0];
    if !(tag == TAG_ED25519 || tag == TAG_BLS || tag == TAG_BLS_SHARE) {
        return Err(DecodeError::BadTag);
    }
    let mut raw: Vec<u8> = Vec::new();
    let mut i: usize = 1;
    while i < ENCODED_LEN
        invariant
            bytes@.len() == ENCODED_LEN,
            1 <= i <= ENCODED_LEN,
            raw@ == bytes@.subrange(1, i as int),
        decreases ENCODED_LEN - i,
    {
        raw.push(bytes[i]);
        i += 1;
    }
    proof {
        assert(raw@ =~= bytes@.subrange(1, ENCODED_LEN as int));
        assert(raw@.len() == KEY_LEN);
    }
    let material = SecretBytes::from_exact(raw);
    let key = if tag == TAG_ED25519 {
        SecretKey::from_ed25519(material)
    } else if tag == TAG_BLS {
        SecretKey::from_bls(material)
    } else {
        SecretKey::from_bls_share(material)
    };
    Ok(key)
}

/// Law: the encoding round-trips. Decoding the encoded form of any well
/// formed view yields that view back, for all three variants.
pub proof fn lemma_round_trip(v: KeyView)
    requires
        wf_view(v),
    ensures
        spec_deserialize(spec_serialize(v)) == Ok::<KeyView, DecodeError>(v),
{
    let enc = spec_serialize(v);
    assert(enc.len() == ENCODED_LEN);
    assert(enc[0] == tag_of(v));
    assert(enc.subrange(1, ENCODED_LEN as int) =~= view_bytes(v));
}

} // verus!
