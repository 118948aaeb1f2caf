//! Proof-of-life checks. Confidence is a whole percentage.

use crate::clock::unix_now;
use crate::encoding::decimal;
use crate::encoding::decimal_string;
use vstd::prelude::*;

verus! {

/// How long before a check the stand-in source reports last activity.
pub const ACTIVITY_LAG_SECS: u64 = 3600;

/// Activity within a day gives high confidence.
pub const DAY_SECS: u64 = 86400;

/// Activity within a week gives moderate confidence.
pub const WEEK_SECS: u64 = 604800;

/// The confidence above which a user counts as alive.
pub const ALIVE_THRESHOLD: u8 = 50;

pub struct LivenessResult {
    pub alive: bool,
    /// Seconds since the Unix epoch, in decimal.
    pub last_seen: String,
    /// Confidence in percent.
    pub confidence: u8,
}

/// Confidence for activity `age` seconds old.
pub open spec fn confidence_for_age(age: nat) -> u8 {
    if age < DAY_SECS {
        90
    } else if age < WEEK_SECS {
        70
    } else {
        30
    }
}

/// When the stand-in source last saw activity, for a check at `now`.
pub open spec fn last_seen_at(now: u64) -> u64 {
    if now >= ACTIVITY_LAG_SECS {
        (now - ACTIVITY_LAG_SECS) as u64
    } else {
        0
    }
}

impl LivenessResult {
    /// This is the result of a check made at `now`.
    pub open spec fn observed_at(&self, now: u64) -> bool {
        let seen = last_seen_at(now);
        &&& self.last_seen@ == decimal(seen as nat)
        &&& self.confidence == confidence_for_age((now - seen) as nat)
        &&& self.alive == (self.confidence > ALIVE_THRESHOLD)
    }
}

pub struct LivenessService {}

impl LivenessService {
    pub fn new() -> (r: Self) {
        LivenessService {  }
    }

    /// Checks whether the user behind `vault_id` was recently active, as of `now`.
    pub fn check_at(&self, vault_id: &str, user_address: &str, now: u64) -> (r: Result<
        LivenessResult,
        String,
    >)
        ensures
            r matches Ok(l) && l.observed_at(now),
    {
        let last_seen: u64 = if now >= ACTIVITY_LAG_SECS {
            now - ACTIVITY_LAG_SECS
        } else {
            0
        };
        let age = now - last_seen;
        let confidence: u8 = if age < DAY_SECS {
            90
        } else if age < WEEK_SECS {
            70
        } else {
            30
        };
        Ok(
            LivenessResult {
                alive: confidence > ALIVE_THRESHOLD,
                last_seen: decimal_string(last_seen),
                confidence,
            },
        )
    }

    /// Checks whether the user behind `vault_id` was recently active.
    pub fn check(&self, vault_id: &str, user_address: &str) -> (r: Result<LivenessResult, String>)
        ensures
            r matches Ok(l) && exists|now: u64| l.observed_at(now),
    {
        let now = unix_now();
        self.check_at(vault_id, user_address, now)
    }
}

} // verus!
