//! Biometric checks. Confidence is a whole percentage.

use vstd::prelude::*;

verus! {

/// The confidence at or above which a sample is accepted.
pub const VERIFY_THRESHOLD: u8 = 70;

pub struct BiometricResult {
    pub verified: bool,
    /// Match confidence in percent.
    pub confidence: u8,
}

/// The stand-in matcher's confidence for a sample of `len` bytes.
pub open spec fn confidence_for_len(len: nat) -> u8 {
    if len > 100 {
        85
    } else if len > 50 {
        75
    } else {
        65
    }
}

pub struct BiometricService;

impl BiometricService {
    pub fn new() -> (r: Self) {
        BiometricService
    }

    /// Checks a biometric sample taken by `method`. An empty sample is refused.
    pub fn verify(&self, biometric_data: &[u8], method: &str) -> (r: Result<BiometricResult, String>)
        ensures
            biometric_data@.len() == 0 ==> (r matches Err(e) && e@ == "Empty biometric data"@),
            biometric_data@.len() > 0 ==> (r matches Ok(b) && b.confidence == confidence_for_len(
                biometric_data@.len(),
            ) && b.verified == (b.confidence >= VERIFY_THRESHOLD)),
    {
        if biometric_data.len() == 0 {
            return Err("Empty biometric data".to_string());
        }
        let confidence = self.calculate_confidence(biometric_data, method);
        Ok(BiometricResult { verified: confidence >= VERIFY_THRESHOLD, confidence })
    }

    fn calculate_confidence(&self, data: &[u8], method: &str) -> (r: u8)
        ensures
            r == confidence_for_len(data@.len()),
    {
        if data.len() > 100 {
            85
        } else if data.len() > 50 {
            75
        } else {
            65
        }
    }
}

} // verus!
