use secret_keys::codec::{DecodeError, deserialize, serialize};
use secret_keys::secret_bytes::SecretBytes;
use secret_keys::secret_key::SecretKey;

fn material(bytes: &[u8]) -> SecretBytes {
    SecretBytes::new(bytes.to_vec()).expect("exactly 32 bytes expected")
}

fn sample_bytes() -> Vec<u8> {
    (0x60u8..0x80u8).collect()
}

fn hex_of(bytes: &[u8]) -> String {
    let mut s = String::new();
    for b in bytes {
        s.push_str(&format!("{:02x}", b));
    }
    s
}

#[test]
fn secret_bytes_rejects_wrong_lengths() {
    assert!(SecretBytes::new(vec![0u8; 31]).is_none());
    assert!(SecretBytes::new(vec![0u8; 33]).is_none());
    assert!(SecretBytes::new(Vec::new()).is_none());
    let sb = SecretBytes::new(vec![7u8; 32]).expect("32 bytes must be accepted");
    assert_eq!(sb.reveal_bytes(), &vec![7u8; 32]);
}

#[test]
fn round_trip_ed25519() {
    let key = SecretKey::from_ed25519(material(&sample_bytes()));
    let encoded = serialize(&key);
    let decoded = deserialize(&encoded).expect("the encoded form must decode");
    assert!(decoded == key);
    assert!(matches!(&decoded, SecretKey::Ed25519(m) if m.reveal_bytes() == &sample_bytes()));
}

#[test]
fn round_trip_bls() {
    let key = SecretKey::from_bls(material(&[0xabu8; 32]));
    let encoded = serialize(&key);
    let decoded = deserialize(&encoded).expect("the encoded form must decode");
    assert!(decoded == key);
    assert!(matches!(&decoded, SecretKey::Bls(m) if m.reveal_bytes() == &vec![0xabu8; 32]));
}

#[test]
fn round_trip_bls_share() {
    let key = SecretKey::from_bls_share(material(&[0x5cu8; 32]));
    let encoded = serialize(&key);
    let decoded = deserialize(&encoded).expect("the encoded form must decode");
    assert!(decoded == key);
    assert!(matches!(&decoded, SecretKey::BlsShare(m) if m.reveal_bytes() == &vec![0x5cu8; 32]));
}

#[test]
fn serialize_exact_bytes() {
    let key = SecretKey::from_ed25519(material(&sample_bytes()));
    let mut expected = vec![0u8];
    expected.extend(sample_bytes());
    assert_eq!(serialize(&key), expected);

    let bls = SecretKey::from_bls(material(&sample_bytes()));
    let mut expected_bls = vec![1u8];
    expected_bls.extend(sample_bytes());
    assert_eq!(serialize(&bls), expected_bls);

    let share = SecretKey::from_bls_share(material(&sample_bytes()));
    let mut expected_share = vec![2u8];
    expected_share.extend(sample_bytes());
    assert_eq!(serialize(&share), expected_share);
}

#[test]
fn deserialize_rejects_bad_length() {
    assert!(matches!(deserialize(&Vec::new()), Err(DecodeError::BadLength)));
    assert!(matches!(deserialize(&vec![0u8; 32]), Err(DecodeError::BadLength)));
    assert!(matches!(deserialize(&vec![0u8; 34]), Err(DecodeError::BadLength)));
}

#[test]
fn deserialize_rejects_bad_tag() {
    let mut bytes = vec![3u8];
    bytes.extend(sample_bytes());
    assert!(matches!(deserialize(&bytes), Err(DecodeError::BadTag)));
    let mut bytes = vec![0xffu8];
    bytes.extend(sample_bytes());
    assert!(matches!(deserialize(&bytes), Err(DecodeError::BadTag)));
}

#[test]
fn display_is_redacted_placeholder() {
    let k = sample_bytes();
    let shown = SecretKey::from_ed25519(material(&k)).display_string();
    assert_eq!(shown, "Ed25519(<redacted>)");
    assert!(!shown.contains(&hex_of(&k)));
    for b in &k {
        assert!(!shown.contains(&format!("{:02x}", b)));
        assert!(!shown.contains(&format!("{:02X}", b)));
        assert!(!shown.contains(&format!("[{}", b)));
        assert!(!shown.contains(&format!("{}, {}", b, b.wrapping_add(1))));
    }

    let shown_bls = SecretKey::from_bls(material(&k)).display_string();
    assert_eq!(shown_bls, "Bls(<redacted>)");
    assert!(!shown_bls.contains(&hex_of(&k)));

    let shown_share = SecretKey::from_bls_share(material(&k)).display_string();
    assert_eq!(shown_share, "BlsShare(<redacted>)");
    assert!(!shown_share.contains(&hex_of(&k)));
}

#[test]
fn display_does_not_depend_on_bytes() {
    let a = SecretKey::from_bls(material(&[0u8; 32])).display_string();
    let b = SecretKey::from_bls(material(&[0xffu8; 32])).display_string();
    assert_eq!(a, b);
}

#[test]
fn bls_conversion_yields_bls_variant() {
    let native = threshold_crypto::SecretKey::random();
    let key = SecretKey::from_native_bls(native);
    assert!(matches!(&key, SecretKey::Bls(_)));
    assert!(!matches!(&key, SecretKey::Ed25519(_)));
    assert!(!matches!(&key, SecretKey::BlsShare(_)));
}

#[test]
fn bls_share_conversion_yields_share_variant() {
    let native = threshold_crypto::SecretKeyShare::default();
    let key = SecretKey::from_native_bls_share(native);
    assert!(matches!(&key, SecretKey::BlsShare(_)));
}

#[test]
fn bls_wrap_is_idempotent() {
    let native = threshold_crypto::SecretKey::random();
    let twin = native.clone();
    let k1 = SecretKey::from_native_bls(native);
    let k2 = SecretKey::from_native_bls(twin);
    assert!(k1 == k2);
}

#[test]
fn bls_wrap_keeps_the_key_bytes_apart() {
    let k1 = SecretKey::from_native_bls(threshold_crypto::SecretKey::random());
    let k2 = SecretKey::from_native_bls(threshold_crypto::SecretKey::random());
    // Two independently drawn field elements collide with negligible odds.
    assert!(!(k1 == k2));
}

#[test]
fn native_bls_round_trips_through_codec() {
    let key = SecretKey::from_native_bls(threshold_crypto::SecretKey::random());
    let encoded = serialize(&key);
    assert_eq!(encoded.len(), 33);
    assert_eq!(encoded[0], 1u8);
    let decoded = deserialize(&encoded).expect("the encoded form must decode");
    assert!(decoded == key);
}

#[test]
fn equality_separates_variants() {
    let bytes = sample_bytes();
    let ed = SecretKey::from_ed25519(material(&bytes));
    let bls = SecretKey::from_bls(material(&bytes));
    let share = SecretKey::from_bls_share(material(&bytes));
    assert!(!(ed == bls));
    assert!(!(bls == share));
    assert!(!(ed == share));
    assert!(ed == SecretKey::from_ed25519(material(&bytes)));
    assert!(!(ed == SecretKey::from_ed25519(material(&[9u8; 32]))));
}
