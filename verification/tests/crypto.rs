use rhinopuffin::crypto::{decrypt, encrypt, CryptoError, Key};

fn derive(material: &[u8]) -> Key {
    Key::new(material).expect("key derivation cannot fail")
}

fn seal(plaintext: &[u8], key: Key) -> Vec<u8> {
    encrypt(plaintext, key).expect("sealing a small plaintext cannot fail")
}

#[test]
fn round_trip_basic() {
    let key = derive(b"some key material");
    let blob = seal(b"attack at dawn", key);
    let opened = decrypt(&blob, derive(b"some key material"));
    assert_eq!(opened, Ok(b"attack at dawn".to_vec()));
}

#[test]
fn round_trip_empty_plaintext() {
    let key = derive(b"k");
    let blob = seal(b"", key);
    assert_eq!(blob.len(), 16 + 12);
    let opened = decrypt(&blob, derive(b"k"));
    assert_eq!(opened, Ok(Vec::new()));
}

#[test]
fn round_trip_empty_key_material() {
    let blob = seal(b"payload", derive(b""));
    let opened = decrypt(&blob, derive(b""));
    assert_eq!(opened, Ok(b"payload".to_vec()));
}

#[test]
fn round_trip_binary_data() {
    let material: Vec<u8> = (0u16..=255).map(|b| b as u8).collect();
    let plaintext: Vec<u8> = (0..1000u32).map(|i| (i * 7 % 256) as u8).collect();
    let blob = seal(&plaintext, derive(&material));
    let opened = decrypt(&blob, derive(&material));
    assert_eq!(opened, Ok(plaintext));
}

#[test]
fn derivation_is_deterministic() {
    // Two independently derived keys from identical material are
    // interchangeable under seal and open.
    let blob = seal(b"message", derive(b"shared secret"));
    let opened = decrypt(&blob, derive(b"shared secret"));
    assert_eq!(opened, Ok(b"message".to_vec()));
}

#[test]
fn nonce_is_fresh_per_seal() {
    let plaintext = b"same plaintext";
    let b1 = seal(plaintext, derive(b"same key"));
    let b2 = seal(plaintext, derive(b"same key"));
    assert_ne!(b1, b2);
    // The difference is in the trailing nonce bytes.
    assert_ne!(b1[b1.len() - 12..], b2[b2.len() - 12..]);
}

#[test]
fn tamper_detection_every_bit() {
    let key_material = b"tamper key";
    let blob = seal(b"hi", derive(key_material));
    assert_eq!(blob.len(), 2 + 16 + 12);
    for byte in 0..blob.len() {
        for bit in 0..8 {
            let mut tampered = blob.clone();
            tampered[byte] ^= 1 << bit;
            let opened = decrypt(&tampered, derive(key_material));
            assert_eq!(opened, Err(CryptoError::AuthenticationFailure));
        }
    }
}

#[test]
fn wrong_key_is_rejected() {
    let blob = seal(b"secret", derive(b"right key"));
    let opened = decrypt(&blob, derive(b"wrong key"));
    assert_eq!(opened, Err(CryptoError::AuthenticationFailure));
}

#[test]
fn short_inputs_fail_cleanly() {
    let key_material = b"any key";
    for len in 0..12 {
        let blob: Vec<u8> = vec![0xAB; len];
        let opened = decrypt(&blob, derive(key_material));
        assert_eq!(opened, Err(CryptoError::AuthenticationFailure));
    }
}

#[test]
fn nonce_sized_input_fails_cleanly() {
    // Exactly 12 bytes: an empty ciphertext region that cannot carry a tag.
    let blob: Vec<u8> = vec![0x55; 12];
    let opened = decrypt(&blob, derive(b"any key"));
    assert_eq!(opened, Err(CryptoError::AuthenticationFailure));
}

#[test]
fn truncated_blob_is_rejected() {
    let blob = seal(b"some longer plaintext", derive(b"key"));
    let truncated = &blob[..blob.len() - 1];
    let opened = decrypt(truncated, derive(b"key"));
    assert_eq!(opened, Err(CryptoError::AuthenticationFailure));
}

#[test]
fn scenario_hello_world() {
    let p = b"hello world";
    let c1 = seal(p, derive(b"password123"));
    assert_eq!(c1.len(), p.len() + 16 + 12);
    assert_eq!(decrypt(&c1, derive(b"password123")), Ok(p.to_vec()));
    assert_eq!(
        decrypt(&c1, derive(b"password124")),
        Err(CryptoError::AuthenticationFailure)
    );
    let mut flipped = c1.clone();
    let last = flipped.len() - 1;
    flipped[last] ^= 0xFF;
    assert_eq!(
        decrypt(&flipped, derive(b"password123")),
        Err(CryptoError::AuthenticationFailure)
    );
}
