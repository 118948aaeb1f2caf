use base64::Engine;
use nautilus_tee::attestation::compute_binding_digest;
use nautilus_tee::attestation::decode_document;
use nautilus_tee::attestation::verify_binding;
use nautilus_tee::attestation::AttestationDocument;
use nautilus_tee::AttestationService;

const IMAGE: &str = "nautilus-tee-image-v1";
const PCR0: &str = "9d1ed799eff06a37541040bb83ed5aaba8a1798cf8ba8b3ae1670947f4218b8b";
const PCR1: &str = "2485f4d55aae6c5b073114bc4c4b1907c0abae14166281beee7d93f76ebf41fc";
const PCR2: &str = "8c27a004ccbe3f47292f4077843be88701d1dc7ac4649d8b625fd7f165816994";

fn service() -> AttestationService {
    AttestationService::new(IMAGE.to_string())
}

fn b64(s: &str) -> Vec<u8> {
    base64::engine::general_purpose::STANDARD.decode(s).unwrap()
}

#[test]
fn measurements_have_expected_values() {
    let m = service().get_pcr_measurements();
    assert_eq!(m.pcr0, PCR0);
    assert_eq!(m.pcr1, PCR1);
    assert_eq!(m.pcr2, PCR2);
}

#[test]
fn measurements_identical_across_many_calls() {
    let s = service();
    let first = s.get_pcr_measurements();
    for _ in 0..1000 {
        let m = s.get_pcr_measurements();
        assert_eq!(m.pcr0, first.pcr0);
        assert_eq!(m.pcr1, first.pcr1);
        assert_eq!(m.pcr2, first.pcr2);
    }
}

#[test]
fn measurements_change_with_image() {
    let a = service().get_pcr_measurements();
    let b = AttestationService::new("nautilus-tee-image-v2".to_string()).get_pcr_measurements();
    assert_ne!(a.pcr0, b.pcr0);
    assert_eq!(a.pcr1, b.pcr1);
}

#[test]
fn binding_digest_exact_value() {
    let d = compute_binding_digest(b"vault-1", b"biometric_verification", PCR0.as_bytes());
    assert_eq!(d, "sha256:94108514e5d0f41e9235619b80326ffc9fffcce639d1a04167915557a2459b6f");
}

#[test]
fn binding_digest_not_confused_by_concatenation() {
    let a = compute_binding_digest(b"ab", b"c", PCR0.as_bytes());
    let b = compute_binding_digest(b"a", b"bc", PCR0.as_bytes());
    assert_ne!(a, b);
}

#[test]
fn generate_at_exact_document_and_signature() {
    let a = service().generate_at("vault-1", "biometric_verification", 1700000000).unwrap();
    assert_eq!(
        a.document,
        "AAAAAAAAABVuYXV0aWx1cy10ZWUtaW1hZ2UtdjEAAAAAAAAAR3NoYTI1Njo5NDEwODUxNGU1ZDBmNDFlOTIzNTYxOWI4MDMyNmZmYzlmZmZjY2U2MzlkMWEwNDE2NzkxNTU1N2EyNDU5YjZmAAAAAGVT8QAAAAAAAAAAFmJpb21ldHJpY192ZXJpZmljYXRpb24AAAAAAAAAB3ZhdWx0LTE="
    );
    assert_eq!(a.signature, "X7OdX1zspz8+SooBtOMNX4OKswChHvXxZUpkHopvigE=");
    assert_eq!(a.enclave_info.image_id, IMAGE);
    assert_eq!(a.enclave_info.timestamp, 1700000000);
    assert_eq!(a.enclave_info.measurements.pcr0, PCR0);
}

#[test]
fn document_round_trip_reproduces_digest() {
    let s = service();
    for (vault, op) in [("vault-1", "zk_proof_generation"), ("", ""), ("v\u{e9}", "liveness_check")] {
        let a = s.generate_at(vault, op, 42).unwrap();
        let bytes = b64(&a.document);
        let d = decode_document(&bytes).unwrap();
        assert_eq!(d.module_id, IMAGE.as_bytes());
        assert_eq!(d.vault_id, vault.as_bytes());
        assert_eq!(d.operation, op.as_bytes());
        assert_eq!(d.timestamp, 42);
        let again = compute_binding_digest(&d.vault_id, &d.operation, PCR0.as_bytes());
        assert_eq!(d.digest, again.as_bytes());
        assert!(verify_binding(&bytes, PCR0));
    }
}

#[test]
fn verify_binding_rejects_other_register() {
    let a = service().generate_at("vault-1", "liveness_check", 7).unwrap();
    assert!(!verify_binding(&b64(&a.document), PCR1));
}

#[test]
fn decode_rejects_malformed_bytes() {
    assert!(decode_document(&[]).is_none());
    assert!(decode_document(&[0, 0, 0, 0, 0, 0, 0, 9, 1]).is_none());
    let a = service().generate_at("vault-1", "op", 7).unwrap();
    let mut bytes = b64(&a.document);
    bytes.push(0);
    assert!(decode_document(&bytes).is_none());
    assert!(!verify_binding(&bytes, PCR0));
}

#[test]
fn document_to_bytes_matches_issued_document() {
    let doc = AttestationDocument {
        module_id: IMAGE.to_string(),
        digest: "sha256:94108514e5d0f41e9235619b80326ffc9fffcce639d1a04167915557a2459b6f".to_string(),
        timestamp: 1700000000,
        operation: "biometric_verification".to_string(),
        vault_id: "vault-1".to_string(),
    };
    let a = service().generate_at("vault-1", "biometric_verification", 1700000000).unwrap();
    assert_eq!(doc.to_bytes(), b64(&a.document));
}

#[test]
fn stable_across_time_but_timestamp() {
    let s = service();
    let a = s.generate_at("vault-9", "biometric_verification", 100).unwrap();
    let b = s.generate_at("vault-9", "biometric_verification", 200).unwrap();
    let da = decode_document(&b64(&a.document)).unwrap();
    let db = decode_document(&b64(&b.document)).unwrap();
    assert_eq!(da.module_id, db.module_id);
    assert_eq!(da.digest, db.digest);
    assert_ne!(da.timestamp, db.timestamp);
    assert_eq!(a.enclave_info.measurements.pcr0, b.enclave_info.measurements.pcr0);
    assert_eq!(a.enclave_info.measurements.pcr1, b.enclave_info.measurements.pcr1);
    assert_eq!(a.enclave_info.measurements.pcr2, b.enclave_info.measurements.pcr2);
    assert_ne!(a.document, b.document);
}

#[test]
fn generate_uses_clock_and_binds_request() {
    let s = service();
    let a = s.generate("vault-1", "biometric_verification").unwrap();
    let b = s.generate("vault-1", "biometric_verification").unwrap();
    let da = decode_document(&b64(&a.document)).unwrap();
    let db = decode_document(&b64(&b.document)).unwrap();
    assert_eq!(da.digest, db.digest);
    assert!(a.enclave_info.timestamp > 1_600_000_000);
    assert!(verify_binding(&b64(&a.document), PCR0));
}

#[test]
fn different_operations_give_different_digests() {
    let s = service();
    let a = s.generate_at("vault-1", "biometric_verification", 5).unwrap();
    let b = s.generate_at("vault-1", "liveness_check", 5).unwrap();
    let da = decode_document(&b64(&a.document)).unwrap();
    let db = decode_document(&b64(&b.document)).unwrap();
    assert_ne!(da.digest, db.digest);
}
