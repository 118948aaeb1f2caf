//! Enclave-side attestation and confidential-claim proofs.

pub mod crypto;
pub mod encoding;
pub mod attestation;
mod clock;
pub mod zk_proof;
pub mod biometric;
pub mod liveness;

pub use attestation::Attestation;
pub use attestation::AttestationService;
pub use attestation::EnclaveInfo;
pub use attestation::Measurements;
pub use biometric::BiometricResult;
pub use biometric::BiometricService;
pub use liveness::LivenessResult;
pub use liveness::LivenessService;
pub use zk_proof::ClaimError;
pub use zk_proof::ClaimValue;
pub use zk_proof::ZKProofResult;
pub use zk_proof::ZKProofService;
