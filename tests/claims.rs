use nautilus_tee::zk_proof::ClaimKind;
use nautilus_tee::ClaimError;
use nautilus_tee::ClaimValue;
use nautilus_tee::ZKProofService;

fn empty_claim() -> ClaimValue {
    ClaimValue { keyword: None, min: None, max: None, hash: None }
}

fn proof_coords(p: &nautilus_tee::zk_proof::ProofObject) -> Vec<String> {
    vec![
        p.pi_a.0.clone(),
        p.pi_a.1.clone(),
        p.pi_b.0 .0.clone(),
        p.pi_b.0 .1.clone(),
        p.pi_b.1 .0.clone(),
        p.pi_b.1 .1.clone(),
        p.pi_c.0.clone(),
        p.pi_c.1.clone(),
    ]
}

#[test]
fn unsupported_claim_types_fail() {
    let s = ZKProofService::new();
    for t in ["", "Keyword", "range", "file-hash", "keyword "] {
        match s.generate(t, &empty_claim(), b"data") {
            Err(ClaimError::UnsupportedOperation(name)) => assert_eq!(name, t),
            _ => panic!("expected unsupported claim type"),
        }
    }
}

#[test]
fn from_tag_resolves_known_tags() {
    assert_eq!(ClaimKind::from_tag("keyword"), Some(ClaimKind::Keyword));
    assert_eq!(ClaimKind::from_tag("timestamp"), Some(ClaimKind::Timestamp));
    assert_eq!(ClaimKind::from_tag("file_hash"), Some(ClaimKind::FileHash));
    assert_eq!(ClaimKind::from_tag("hash"), None);
}

#[test]
fn timestamp_range_signals() {
    let s = ZKProofService::new();
    let v = ClaimValue { min: Some(100), max: Some(200), ..empty_claim() };
    let r = s.generate("timestamp", &v, b"{\"ts\":150}").ok().unwrap();
    assert_eq!(r.public_signals, vec!["100".to_string(), "200".to_string()]);
    assert_eq!(proof_coords(&r.proof)[0], "0x1111");
}

#[test]
fn timestamp_defaults() {
    let s = ZKProofService::new();
    let r = s.generate("timestamp", &empty_claim(), b"").ok().unwrap();
    assert_eq!(r.public_signals, vec!["0".to_string(), "9999999999".to_string()]);
    let v = ClaimValue { max: Some(18446744073709551615), ..empty_claim() };
    let r = s.generate("timestamp", &v, b"").ok().unwrap();
    assert_eq!(r.public_signals, vec!["0".to_string(), "18446744073709551615".to_string()]);
}

#[test]
fn file_hash_of_plaintext_matches() {
    let s = ZKProofService::new();
    let expected = "b94d27b9934d3e08a52e52d7da7dabfac484efe37a5380ee9088f7ace2efcde9";
    let v = ClaimValue { hash: Some(expected.to_string()), ..empty_claim() };
    let r = s.generate("file_hash", &v, b"hello world").ok().unwrap();
    assert_eq!(r.public_signals, vec![expected.to_string(), expected.to_string()]);
    assert_eq!(proof_coords(&r.proof)[7], "0x1111");
}

#[test]
fn file_hash_mismatch_reports_both() {
    let s = ZKProofService::new();
    let v = ClaimValue { hash: Some("00".to_string()), ..empty_claim() };
    let r = s.generate("file_hash", &v, b"hello world").ok().unwrap();
    assert_eq!(r.public_signals[0], "00");
    assert_eq!(r.public_signals[1], "b94d27b9934d3e08a52e52d7da7dabfac484efe37a5380ee9088f7ace2efcde9");
}

#[test]
fn file_hash_missing_hash_fails() {
    let s = ZKProofService::new();
    match s.generate("file_hash", &empty_claim(), b"x") {
        Err(ClaimError::Validation(f)) => assert_eq!(f, "hash"),
        _ => panic!("expected validation error"),
    }
}

#[test]
fn keyword_missing_field_fails() {
    let s = ZKProofService::new();
    match s.generate("keyword", &empty_claim(), b"secret text") {
        Err(ClaimError::Validation(f)) => assert_eq!(f, "keyword"),
        _ => panic!("expected validation error"),
    }
}

#[test]
fn keyword_empty_fails() {
    let s = ZKProofService::new();
    let v = ClaimValue { keyword: Some(String::new()), ..empty_claim() };
    assert!(matches!(s.generate("keyword", &v, b"x"), Err(ClaimError::Validation(_))));
}

#[test]
fn keyword_signal_commits_to_keyword() {
    let s = ZKProofService::new();
    let v = ClaimValue { keyword: Some("secret".to_string()), ..empty_claim() };
    let data = b"the secret is here";
    let r = s.generate("keyword", &v, data).ok().unwrap();
    assert_eq!(
        r.public_signals,
        vec!["keyword_hash_2bb80d537b1da3e38bd30361aa855686bde0eacd7162fef6a25fe97bf527a25b".to_string()]
    );
    assert_eq!(
        proof_coords(&r.proof),
        vec!["0x1234", "0x5678", "0xabcd", "0xef01", "0x2345", "0x6789", "0x9876", "0x5432"]
    );
}

#[test]
fn signals_never_hold_confidential_data() {
    let s = ZKProofService::new();
    let data = "TOP-SECRET-PAYLOAD";
    let v = ClaimValue {
        keyword: Some("k".to_string()),
        min: Some(1),
        max: Some(2),
        hash: Some("ab".to_string()),
    };
    for t in ["keyword", "timestamp", "file_hash"] {
        let r = s.generate(t, &v, data.as_bytes()).ok().unwrap();
        for sig in &r.public_signals {
            assert!(!sig.contains(data));
        }
    }
}

#[test]
fn claim_value_from_json() {
    let mut m = serde_json::Map::new();
    m.insert("keyword".to_string(), serde_json::Value::String("alpha".to_string()));
    m.insert("min".to_string(), serde_json::Value::from(100u64));
    m.insert("max".to_string(), serde_json::Value::from(-5i64));
    m.insert("hash".to_string(), serde_json::Value::from(3u64));
    let v = ClaimValue::from_json(&serde_json::Value::Object(m));
    assert_eq!(v.keyword, Some("alpha".to_string()));
    assert_eq!(v.min, Some(100));
    assert_eq!(v.max, None);
    assert_eq!(v.hash, None);
    let none = ClaimValue::from_json(&serde_json::Value::Null);
    assert!(none.keyword.is_none() && none.min.is_none());
}
