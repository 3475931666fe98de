use invisibly::baseline::{
    sign_baseline, compute_baseline_hash, build_baseline, verify_baseline, get_previous_hash, parse_u64,
    get_current_version, get_next_version, parse_i32, sort_versions, prune_old_versions, SignedBaseline, BaselineVersion,
    MAX_VERSIONS, restore_target,
};
use invisibly::crypto::get_hmac_key;

fn key() -> [u8; 32] {
    let mut m = [0u8; 32];
    for i in 0..32 {
        m[i] = i as u8;
    }
    get_hmac_key(&m)
}

fn stored() -> SignedBaseline {
    let sig = sign_baseline(&key(), "{\"s\":1}", "prev", 3);
    SignedBaseline {
        version: 3,
        timestamp: "2024-01-01T00:00:00Z".to_string(),
        state: "{\"s\":1}".to_string(),
        signature: sig,
        previous_hash: "prev".to_string(),
    }
}

#[test]
fn signature_and_hash_have_known_values() {
    let b = stored();
    assert_eq!(b.signature, "d9e571b8100380f941ec0f33612b279863f1f3af3b5d4410318b077e6734dbd0");
    assert_eq!(compute_baseline_hash(&b), "fd499227e7b75015e26018cc394b3ad5b8466c0e6b78444e2aedacf0be693ca0");
}

#[test]
fn verdicts() {
    let b = stored();
    let h = compute_baseline_hash(&b);
    let ok = verify_baseline(Some(b.clone()), 3, &h, &key());
    assert!(ok.exists && ok.valid);
    assert_eq!(ok.state, "VALID");
    assert_eq!(ok.version, 3);
    let old = verify_baseline(Some(b.clone()), 4, &h, &key());
    assert!(old.exists && !old.valid);
    assert_eq!(old.state, "OUTDATED_VERSION (current: 4)");
    let mism = verify_baseline(Some(b.clone()), 3, "deadbeef", &key());
    assert_eq!(mism.state, "HASH_MISMATCH");
    let mut forged = b.clone();
    forged.state = "{\"s\":2}".to_string();
    let fh = compute_baseline_hash(&forged);
    assert_eq!(verify_baseline(Some(forged), 3, &fh, &key()).state, "INVALID_SIGNATURE");
    let none = verify_baseline(None, 3, "", &key());
    assert!(!none.exists && !none.valid && none.version == 0);
}

#[test]
fn fresh_baseline_verifies() {
    let b = build_baseline(&key(), "{}".to_string(), "p".to_string(), 9);
    let h = compute_baseline_hash(&b);
    assert!(verify_baseline(Some(b), 9, &h, &key()).valid);
}

#[test]
fn versions() {
    let b = stored();
    assert_eq!(get_previous_hash(&Some(b.clone())), compute_baseline_hash(&b));
    assert_eq!(get_previous_hash(&None), "0");
    assert_eq!(parse_u64("+42"), Some(42));
    assert_eq!(parse_u64("18446744073709551616"), None);
    assert_eq!(parse_u64("4x"), None);
    assert_eq!(get_current_version(Some(" 7\n".to_string()), &Some(b.clone())), 7);
    assert_eq!(get_current_version(Some("junk".to_string()), &Some(b.clone())), 3);
    assert_eq!(get_current_version(None, &None), 0);
    assert_eq!(get_next_version(7), 8);
}

#[test]
fn pruning_keeps_the_newest() {
    let vs: Vec<BaselineVersion> = (0..(MAX_VERSIONS as u64 + 3))
        .rev()
        .map(|v| BaselineVersion { version: v, timestamp: String::new(), hash: String::new() })
        .collect();
    assert_eq!(sort_versions(&vs[0..3]), vec![200, 201, 202]);
    assert_eq!(prune_old_versions(&vs), vec![0, 1, 2]);
    assert!(prune_old_versions(&vs[0..10]).is_empty());
}

#[test]
fn signed_numbers() {
    assert_eq!(parse_i32("-5"), Some(-5));
    assert_eq!(parse_i32("+7"), Some(7));
    assert_eq!(parse_i32("-2147483648"), Some(i32::MIN));
    assert_eq!(parse_i32("2147483648"), None);
    assert_eq!(parse_i32("-+1"), None);
    assert_eq!(parse_i32("-"), None);
}

#[test]
fn restore_finds_the_archived_hash() {
    let v = |n: u64, h: &str| BaselineVersion { version: n, timestamp: "t".to_string(), hash: h.to_string() };
    let versions = vec![v(1, "aa"), v(2, "bb"), v(4, "dd")];
    assert_eq!(restore_target(&versions, 2), Ok("bb".to_string()));
    assert_eq!(restore_target(&versions, 3), Err("Version 3 not found".to_string()));
    assert_eq!(restore_target(&[], 1), Err("Version 1 not found".to_string()));
}
