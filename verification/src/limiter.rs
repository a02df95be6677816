//! The quota that the sidecar keeps for each subject.
//!
//! The buckets are those of `governor`: one for each key, made when the key
//! is first seen, refilled as time passes and held in memory only. Whether a
//! request is admitted depends on the clock, so the contracts here promise
//! nothing of it, and [`crate::sidecar`] is verified for either answer.

use std::num::NonZeroU32;
use vstd::prelude::*;

verus! {

/// How many requests a subject is allowed per minute unless the caller
/// chooses otherwise.
pub const DEFAULT_QUOTA_PER_MINUTE: u32 = 10;

/// A keyed rate limiter of `governor`, with a bucket for each subject.
#[verifier::external_body]
pub struct SubjectLimiter {
    inner: governor::DefaultKeyedRateLimiter<String>,
}

/// The number of requests per minute that a limiter was made for.
pub uninterp spec fn quota_per_minute(limiter: SubjectLimiter) -> u32;

/// Makes a limiter with `governor::Quota::per_minute` and
/// `governor::RateLimiter::dashmap`. The contract records the quota that the
/// limiter was made for and says nothing of how it is kept.
#[verifier::external_body]
pub(crate) fn new_limiter(per_minute: u32) -> (limiter: SubjectLimiter)
    requires
        per_minute > 0,
    ensures
        quota_per_minute(limiter) == per_minute,
{
    let quota = governor::Quota::per_minute(NonZeroU32::new(per_minute).unwrap());
    SubjectLimiter { inner: governor::RateLimiter::dashmap(quota) }
}

/// Asks `governor::RateLimiter::check_key` whether one more request of
/// `subject` is within its quota, and counts the request if it is. The
/// answer depends on the time of the call: nothing is promised of it.
#[verifier::external_body]
pub(crate) fn check_subject(limiter: &SubjectLimiter, subject: &String) -> (admitted: bool) {
    limiter.inner.check_key(subject).is_ok()
}

} // verus!
