use roomtemp::keystore::{init_service, KeyStore, KeystoreError};

#[test]
fn init_service_and_test_override() {
    let _platform = init_service("test-service");
    let ks = KeyStore::set_test_key(vec![7u8; 32]);
    let k = ks.get_or_create_key().expect("got key");
    assert_eq!(k.len(), 32);
}

#[test]
fn into_fixed_rejects_short_vector() {
    let v = vec![1u8; 10];
    let res = KeyStore::into_fixed(v);
    assert!(matches!(res, Err(KeystoreError::InvalidLength)));
}

#[test]
fn generate_key_has_correct_length() {
    let k = KeyStore::generate_key();
    assert_eq!(k.len(), 32);
}

#[test]
fn service_init_sets_value() {
    let ks = init_service("abc-service");
    assert!(!ks.service_str().is_empty());
}

#[test]
fn fixed_key_is_returned_verbatim() {
    let mut key = vec![0u8; 32];
    key[0] = 42;
    key[31] = 7;
    let ks = KeyStore::set_test_key(key.clone());
    let got = ks.get_or_create_key().expect("got key");
    assert_eq!(got, key);
}

#[test]
fn into_fixed_accepts_exact_length() {
    let v = vec![9u8; 32];
    let got = KeyStore::into_fixed(v.clone()).expect("accepted");
    assert_eq!(got, v);
}

#[test]
fn key_from_stored_decodes_base64_credential() {
    // 32 zero bytes, base64-encoded with the standard alphabet.
    let stored = "AAAAAAAAAAAAAAAAAAAAAAAAAAAAAAAAAAAAAAAAAAA=";
    let got = KeyStore::key_from_stored(stored).expect("decoded");
    assert_eq!(got, vec![0u8; 32]);
}

#[test]
fn key_from_stored_rejects_bad_base64() {
    let res = KeyStore::key_from_stored("not base64 at all!");
    assert!(matches!(res, Err(KeystoreError::BadDataFormat(_, _))));
}

#[test]
fn key_from_stored_rejects_wrong_length() {
    // "short" in base64: decodes to 5 bytes, not 32.
    let res = KeyStore::key_from_stored("c2hvcnQ=");
    assert!(matches!(res, Err(KeystoreError::InvalidLength)));
}
