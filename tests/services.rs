use nautilus_tee::BiometricService;
use nautilus_tee::LivenessService;

#[test]
fn biometric_empty_sample_fails() {
    let s = BiometricService::new();
    assert_eq!(s.verify(&[], "face").err(), Some("Empty biometric data".to_string()));
}

#[test]
fn biometric_confidence_by_length() {
    let s = BiometricService::new();
    let r = s.verify(&[1u8; 101], "fingerprint").ok().unwrap();
    assert_eq!((r.confidence, r.verified), (85, true));
    let r = s.verify(&[1u8; 100], "face").ok().unwrap();
    assert_eq!((r.confidence, r.verified), (75, true));
    let r = s.verify(&[1u8; 51], "voice").ok().unwrap();
    assert_eq!((r.confidence, r.verified), (75, true));
    let r = s.verify(&[1u8; 50], "voice").ok().unwrap();
    assert_eq!((r.confidence, r.verified), (65, false));
    let r = s.verify(&[1u8; 1], "voice").ok().unwrap();
    assert_eq!((r.confidence, r.verified), (65, false));
}

#[test]
fn liveness_at_fixed_time() {
    let s = LivenessService::new();
    let r = s.check_at("vault-1", "0xabc", 1_000_000).ok().unwrap();
    assert_eq!(r.last_seen, "996400");
    assert_eq!(r.confidence, 90);
    assert!(r.alive);
}

#[test]
fn liveness_near_epoch() {
    let s = LivenessService::new();
    let r = s.check_at("vault-1", "0xabc", 100).ok().unwrap();
    assert_eq!(r.last_seen, "0");
    assert_eq!(r.confidence, 90);
    assert!(r.alive);
}

#[test]
fn liveness_now() {
    let s = LivenessService::new();
    let r = s.check("vault-1", "0xabc").ok().unwrap();
    assert!(r.alive);
    assert_eq!(r.confidence, 90);
    assert!(r.last_seen.parse::<u64>().unwrap() > 1_600_000_000);
}
