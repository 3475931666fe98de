use invisibly::crypto::{
    sha256_of_str, sha256_hex, get_hmac_key, get_xor_key, hmac_sign, hmac_verify, encrypt_data,
    decrypt_data, encrypt_baseline, decrypt_baseline, encrypt_consent, master_key_source, KeyFile, KeySource,
    KeyHealth, key_read_healthy,
};

fn master() -> [u8; 32] {
    let mut m = [0u8; 32];
    for i in 0..32 {
        m[i] = i as u8;
    }
    m
}

#[test]
fn sha256_of_known_text() {
    assert_eq!(sha256_hex("abc"), "ba7816bf8f01cfea414140de5dae2223b00361a396177a9cb410ff61f20015ad");
    assert_eq!(sha256_of_str("abc").len(), 32);
}

#[test]
fn derived_keys_are_labelled_digests() {
    let hk = get_hmac_key(&master());
    let xk = get_xor_key(&master());
    assert_eq!(hk[0..4], [90, 158, 94, 54]);
    assert_eq!(hk[31], 212);
    assert_eq!(xk[0..4], [183, 168, 107, 95]);
    assert_eq!(xk[31], 6);
}

#[test]
fn hmac_sign_and_verify() {
    let key = get_hmac_key(&master());
    let sig = hmac_sign(&key, b"hello");
    assert_eq!(sig, "023615341b22172b6776da0cbf600a6752936d6b540412414df7b2ab147a7e03");
    assert!(hmac_verify(&key, b"hello", &sig));
    assert!(!hmac_verify(&key, b"hello!", &sig));
    assert!(!hmac_verify(&key, b"hello", "not hex"));
}

#[test]
fn xor_round_trip() {
    let key = get_xor_key(&master());
    let data: Vec<u8> = (0..70u8).collect();
    let enc = encrypt_data(&data, &key);
    assert_ne!(enc, data);
    assert_eq!(enc[33], data[33] ^ key[1]);
    assert_eq!(decrypt_data(&enc, &key).unwrap(), data);
}

#[test]
fn baseline_round_trip_and_bad_utf8() {
    let key = get_xor_key(&master());
    let enc = encrypt_baseline("{\"dns\":[\"1.1.1.1\"]} é", &key);
    assert_eq!(decrypt_baseline(&enc, &key).unwrap(), "{\"dns\":[\"1.1.1.1\"]} é");
    let bad = encrypt_data(&[0xff, 0xfe], &key);
    assert_eq!(decrypt_baseline(&bad, &key), Err("Invalid UTF-8".to_string()));
    assert_eq!(encrypt_consent("yes", &key), encrypt_data(b"yes", &key));
}

#[test]
fn master_key_sources() {
    assert_eq!(master_key_source(KeyFile::Read { unprotected_len: Some(32), stored_len: 200 }), KeySource::Protected);
    assert_eq!(master_key_source(KeyFile::Read { unprotected_len: Some(16), stored_len: 32 }), KeySource::Regenerate);
    assert_eq!(master_key_source(KeyFile::Read { unprotected_len: None, stored_len: 32 }), KeySource::Legacy);
    assert_eq!(master_key_source(KeyFile::Read { unprotected_len: None, stored_len: 5 }), KeySource::Regenerate);
    assert_eq!(master_key_source(KeyFile::Unreadable), KeySource::Regenerate);
    let mut h = KeyHealth::new();
    assert!(key_read_healthy(&h));
    h.record(KeySource::Regenerate);
    assert!(!key_read_healthy(&h));
    h.record(KeySource::Legacy);
    assert!(key_read_healthy(&h));
}
