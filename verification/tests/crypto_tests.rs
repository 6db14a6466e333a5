use hutopia::crypto::{generate_key_pair, KeyPair, read_key_pair, sign, verify, KeyPairError};

#[test]
fn test_sign_and_verify() {
    // Generate key pair
    let key_pair = generate_key_pair().unwrap();

    // Get public key bytes
    let public_key_bytes = key_pair.public_key();

    // Message to sign
    let message = b"Hello, world!";

    // Sign the message
    let signature = sign(&key_pair, message);

    // Verify the signature
    let is_valid = verify(public_key_bytes, message, signature.as_ref());

    assert!(is_valid, "Signature verification failed");
}

#[test]
fn signature_is_deterministic_and_64_bytes() {
    let key_pair = generate_key_pair().unwrap();
    let a = sign(&key_pair, b"abc");
    let b = sign(&key_pair, b"abc");
    assert_eq!(a, b);
    assert_eq!(a.len(), 64);
}

#[test]
fn tampered_message_or_signature_is_refused() {
    let key_pair = generate_key_pair().unwrap();
    let signature = sign(&key_pair, b"Hello, world!");
    assert!(!verify(key_pair.public_key(), b"Hello, world?", &signature));
    let mut bad = signature.clone();
    bad[0] ^= 1;
    assert!(!verify(key_pair.public_key(), b"Hello, world!", &bad));
}

#[test]
fn other_key_is_refused() {
    let a = generate_key_pair().unwrap();
    let b = generate_key_pair().unwrap();
    let signature = sign(&a, b"message");
    assert!(!verify(b.public_key(), b"message", &signature));
}

#[test]
fn read_key_pair_accepts_matching_files() {
    let key_pair = generate_key_pair().unwrap();
    let private = key_pair.pkcs8().to_vec();
    let public = key_pair.public_key().to_vec();
    let loaded = read_key_pair(private, &public).unwrap();
    assert_eq!(loaded.public_key(), public.as_slice());
    let signature = sign(&loaded, b"x");
    assert!(verify(&public, b"x", &signature));
}

#[test]
fn read_key_pair_refuses_mismatch() {
    let a = generate_key_pair().unwrap();
    let b = generate_key_pair().unwrap();
    let r = read_key_pair(a.pkcs8().to_vec(), b.public_key());
    assert_eq!(r.err(), Some(KeyPairError::KeyMismatch));
}

#[test]
fn read_key_pair_refuses_garbage() {
    let r = read_key_pair(vec![1, 2, 3], &[0u8; 32]);
    assert_eq!(r.err(), Some(KeyPairError::InvalidPrivateKey));
}

#[test]
fn verify_refuses_wrong_lengths() {
    let key_pair = generate_key_pair().unwrap();
    let message = b"lengths";
    let signature = sign(&key_pair, message);
    assert_eq!(key_pair.public_key().len(), 32);
    assert_eq!(signature.len(), 64);
    assert!(verify(key_pair.public_key(), message, &signature));
    assert!(!verify(&key_pair.public_key()[..31], message, &signature));
    assert!(!verify(key_pair.public_key(), message, &signature[..63]));
    let mut longer = signature.clone();
    longer.push(0);
    assert!(!verify(key_pair.public_key(), message, &longer));
    assert!(!verify(&[], message, &[]));
}

#[test]
fn key_pair_from_document() {
    assert!(KeyPair::from_document(vec![1, 2, 3]).is_none());
    let key_pair = generate_key_pair().unwrap();
    let again = KeyPair::from_document(key_pair.pkcs8().to_vec()).unwrap();
    assert_eq!(again.public_key(), key_pair.public_key());
    assert_eq!(again.pkcs8(), key_pair.pkcs8());
}
