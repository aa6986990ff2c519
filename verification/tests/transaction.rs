use rand::distributions::Alphanumeric;
use rand::Rng;
use ring::rand::SystemRandom;
use ring::signature::Ed25519KeyPair;
use txsign::ed25519::{KeyError, PublicKey, Signature, SigningKey};
use txsign::transaction::{sign, verify, SignedTransaction, Transaction};

fn random_key() -> SigningKey {
    let rng = SystemRandom::new();
    let doc = Ed25519KeyPair::generate_pkcs8(&rng).unwrap();
    SigningKey::from_pkcs8(doc.as_ref().to_vec()).unwrap()
}

fn random_string() -> String {
    rand::thread_rng()
        .sample_iter(&Alphanumeric)
        .take(10)
        .map(char::from)
        .collect::<String>()
}

fn generate_random_transaction() -> Transaction {
    Transaction::new(random_string(), random_string())
}

#[test]
fn sign_verify() {
    let t = generate_random_transaction();
    let key = random_key();
    let signature = sign(&t, &key);
    assert!(verify(&t, &(key.public_key()), &signature));
}

#[test]
fn tamper_input_rejected() {
    let key = random_key();
    let t = Transaction::new(String::from("alice"), String::from("bob"));
    let s = sign(&t, &key);
    let pk = key.public_key();
    let tampered = Transaction::new(String::from("alicx"), String::from("bob"));
    assert!(!verify(&tampered, &pk, &s));
}

#[test]
fn tamper_output_rejected() {
    let key = random_key();
    let t = Transaction::new(String::from("alice"), String::from("bob"));
    let s = sign(&t, &key);
    let pk = key.public_key();
    let tampered = Transaction::new(String::from("alice"), String::from("boc"));
    assert!(!verify(&tampered, &pk, &s));
}

#[test]
fn tamper_signature_rejected() {
    let key = random_key();
    let t = Transaction::new(String::from("alice"), String::from("bob"));
    let s = sign(&t, &key);
    let pk = key.public_key();
    let mut bytes = s.as_bytes().to_vec();
    bytes[0] ^= 0x01;
    let corrupt = Signature::from_bytes(bytes);
    assert!(!verify(&t, &pk, &corrupt));
}

#[test]
fn wrong_key_rejected() {
    let k1 = random_key();
    let k2 = random_key();
    let t = generate_random_transaction();
    let s = sign(&t, &k1);
    assert!(verify(&t, &k1.public_key(), &s));
    assert!(!verify(&t, &k2.public_key(), &s));
}

#[test]
fn deterministic_signature() {
    let key = random_key();
    let t = generate_random_transaction();
    let s1 = sign(&t, &key);
    let s2 = sign(&t, &key);
    assert_eq!(s1.as_bytes(), s2.as_bytes());
}

#[test]
fn empty_fields_sign_and_verify() {
    let key = random_key();
    let t = Transaction::new(String::new(), String::new());
    assert_eq!(t.encode(), Vec::<u8>::new());
    let s = sign(&t, &key);
    assert!(verify(&t, &key.public_key(), &s));
}

#[test]
fn concrete_scenario() {
    let k1 = random_key();
    let pk1 = k1.public_key();
    let t = Transaction::new(String::from("alice"), String::from("bob"));
    let s1 = sign(&t, &k1);
    assert!(verify(&t, &pk1, &s1));
    // Same concatenated bytes under a shifted field split: accepted, by the
    // delimiter-free encoding.
    let shifted = Transaction::new(String::from("alic"), String::from("ebob"));
    assert!(verify(&shifted, &pk1, &s1));
    // Different concatenated bytes: rejected.
    let other = Transaction::new(String::from("alice"), String::from("bob2"));
    assert!(!verify(&other, &pk1, &s1));
}

#[test]
fn encode_concatenates_fields() {
    let t = Transaction::new(String::from("alice"), String::from("bob"));
    assert_eq!(t.encode(), b"alicebob".to_vec());
    assert_eq!(t.input(), "alice");
    assert_eq!(t.output(), "bob");
}

#[test]
fn encode_multibyte_characters() {
    let t = Transaction::new(String::from("\u{e9}"), String::new());
    assert_eq!(t.encode(), vec![0xC3, 0xA9]);
}

#[test]
fn unicode_fields_sign_and_verify() {
    let key = random_key();
    let t = Transaction::new(String::from("p\u{e8}re no\u{eb}l"), String::from("\u{2603}"));
    let s = sign(&t, &key);
    assert!(verify(&t, &key.public_key(), &s));
}

#[test]
fn signature_is_64_bytes() {
    let key = random_key();
    let t = generate_random_transaction();
    let s = sign(&t, &key);
    assert_eq!(s.as_bytes().len(), 64);
}

#[test]
fn public_key_is_32_bytes() {
    let key = random_key();
    assert_eq!(key.public_key().as_bytes().len(), 32);
}

#[test]
fn invalid_key_material_rejected() {
    let r = SigningKey::from_pkcs8(vec![1, 2, 3]);
    assert!(matches!(r, Err(KeyError::InvalidKey)));
    let r = SigningKey::from_pkcs8(Vec::new());
    assert!(matches!(r, Err(KeyError::InvalidKey)));
}

#[test]
fn keys_and_signatures_round_trip_as_bytes() {
    let key = random_key();
    let t = generate_random_transaction();
    let s = sign(&t, &key);
    let pk = PublicKey::from_bytes(key.public_key().as_bytes().to_vec());
    let s2 = Signature::from_bytes(s.as_bytes().to_vec());
    assert!(verify(&t, &pk, &s2));
}

#[test]
fn signed_transaction_envelope_holds_its_parts() {
    let envelope = SignedTransaction::new("alicebob", "0011");
    assert_eq!(envelope.transaction(), "alicebob");
    assert_eq!(envelope.signature(), "0011");
}

#[test]
fn default_transaction_is_empty() {
    let t = Transaction::default();
    assert_eq!(t.input(), "");
    assert_eq!(t.output(), "");
    assert!(t.encode().is_empty());
}
