use roomtemp::crypto::{encrypt_then_decrypt, Crypto, CryptoBox, CryptoError};

#[test]
fn roundtrip_encrypt_decrypt() {
    let key = [0u8; 32];
    let c = CryptoBox::new(&key).expect("valid key");
    let (ct, nonce) = c.encrypt_string("hello").expect("encrypt");
    let pt = c.decrypt_string(&ct, &nonce).expect("decrypt");
    assert_eq!(pt, "hello");
}

#[test]
fn new_fails_for_bad_key_len() {
    let short = [0u8; 16];
    let res = CryptoBox::new(&short);
    assert!(matches!(res, Err(CryptoError::InvalidKey)));
}

#[test]
fn decrypt_fails_for_bad_nonce_len() {
    let key = [0u8; 32];
    let c = CryptoBox::new(&key).expect("valid key");
    let (ct, _nonce) = c.encrypt_string("x").expect("encrypt");
    let res = c.decrypt_string(&ct, &[0u8; 8]);
    assert!(matches!(res, Err(CryptoError::InvalidNonceLen(8))));
}

#[test]
fn roundtrip_through_library_helper() {
    let key = [7u8; 32];
    let c = CryptoBox::new(&key).expect("valid key");
    let pt = encrypt_then_decrypt(&c, "some secret token").expect("round trip");
    assert_eq!(pt, "some secret token");
}

#[test]
fn roundtrip_empty_and_unicode_strings() {
    let key = [9u8; 32];
    let c = CryptoBox::new(&key).expect("valid key");
    for s in ["", "a", "tok-123", "caf\u{e9} \u{1f600}"] {
        let (ct, nonce) = c.encrypt_string(s).expect("encrypt");
        assert_eq!(nonce.len(), 12);
        let pt = c.decrypt_string(&ct, &nonce).expect("decrypt");
        assert_eq!(pt, s);
    }
}

#[test]
fn tamper_detection_on_every_bit() {
    let key = [3u8; 32];
    let c = CryptoBox::new(&key).expect("valid key");
    let (ct, nonce) = c.encrypt_string("hi").expect("encrypt");
    for i in 0..ct.len() {
        for bit in 0..8 {
            let mut tampered = ct.clone();
            tampered[i] ^= 1u8 << bit;
            let res = c.decrypt_string(&tampered, &nonce);
            assert!(matches!(res, Err(CryptoError::Decrypt)));
        }
    }
}

#[test]
fn decrypt_with_wrong_key_fails() {
    let c1 = CryptoBox::new(&[1u8; 32]).expect("valid key");
    let c2 = CryptoBox::new(&[2u8; 32]).expect("valid key");
    let (ct, nonce) = c1.encrypt_string("secret").expect("encrypt");
    let res = c2.decrypt_string(&ct, &nonce);
    assert!(matches!(res, Err(CryptoError::Decrypt)));
}

#[test]
fn fresh_nonce_for_every_encryption() {
    let c = CryptoBox::new(&[5u8; 32]).expect("valid key");
    let (_, n1) = c.encrypt_string("same").expect("encrypt");
    let (_, n2) = c.encrypt_string("same").expect("encrypt");
    assert_ne!(n1, n2);
}

#[test]
fn crypto_trait_object_roundtrip() {
    let c = CryptoBox::new(&[4u8; 32]).expect("valid key");
    let cr: &dyn Crypto = &c;
    let (ct, nonce) = cr.encrypt_string("via trait").expect("encrypt");
    let pt = cr.decrypt_string(&ct, &nonce).expect("decrypt");
    assert_eq!(pt, "via trait");
}
