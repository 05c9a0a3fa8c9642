//! Platform-neutral disable-while-typing (DWT) policy.
//!
//! The platform boundary identifies keyboards and reduces raw key events to
//! an anonymous "typing activity happened" signal; this core never receives
//! key codes, key text, or keyboard device data.

use crate::time_span::{duration_from_millis, std_duration_from_millis};
use std::time::Duration;
use vstd::prelude::*;

verus! {

/// Default quiet period after the first isolated typing key.
pub const DEFAULT_DWT_SHORT_TIMEOUT_MS: u64 = 200;

/// Default quiet period once continued typing has been detected.
pub const DEFAULT_DWT_LONG_TIMEOUT_MS: u64 = 500;

/// Largest accepted timeout, in milliseconds.
pub const MAX_DWT_TIMEOUT_MS: u64 = 5_000;

/// User-facing DWT policy.
#[derive(Clone, Debug, PartialEq, Eq, Structural)]
pub struct DwtConfig {
    /// Whether typing activity may suppress new touch contacts.
    pub enabled: bool,
    /// Quiet period after the first isolated typing key.
    pub short_timeout_ms: u64,
    /// Quiet period once continued typing has been detected.
    pub long_timeout_ms: u64,
}

/// Why a DWT configuration is rejected.
#[derive(Clone, Debug, PartialEq, Eq)]
pub enum DwtConfigError {
    /// A timeout is outside `1..=max` milliseconds.
    TimeoutRange { name: &'static str, value: u64, max: u64 },
    /// The short timeout exceeds the long one.
    OutOfOrder,
}

/// Whether a timeout lies in the accepted range `1..=MAX_DWT_TIMEOUT_MS`.
pub open spec fn timeout_in_range(ms: u64) -> bool {
    1 <= ms <= MAX_DWT_TIMEOUT_MS
}

impl DwtConfig {
    /// Whether the configuration is accepted by [`DwtConfig::validate`].
    pub open spec fn spec_valid(self) -> bool {
        timeout_in_range(self.short_timeout_ms) && timeout_in_range(self.long_timeout_ms)
            && self.short_timeout_ms <= self.long_timeout_ms
    }

    /// The libinput-style defaults: enabled, 200 ms short and 500 ms long.
    pub open spec fn spec_default() -> DwtConfig {
        DwtConfig {
            enabled: true,
            short_timeout_ms: DEFAULT_DWT_SHORT_TIMEOUT_MS,
            long_timeout_ms: DEFAULT_DWT_LONG_TIMEOUT_MS,
        }
    }

    /// Validates the timing without silently coercing it. The short timeout
    /// is checked first, then the long one, then their order.
    pub fn validate(&self) -> (r: Result<(), DwtConfigError>)
        ensures
            r is Ok <==> self.spec_valid(),
            !timeout_in_range(self.short_timeout_ms) ==> (r matches Err(
                DwtConfigError::TimeoutRange { name, value, max },
            ) && name@ == "short_timeout_ms"@ && value == self.short_timeout_ms && max
                == MAX_DWT_TIMEOUT_MS),
            timeout_in_range(self.short_timeout_ms) && !timeout_in_range(self.long_timeout_ms) ==> (
            r matches Err(DwtConfigError::TimeoutRange { name, value, max }) && name@
                == "long_timeout_ms"@ && value == self.long_timeout_ms && max
                == MAX_DWT_TIMEOUT_MS),
            timeout_in_range(self.short_timeout_ms) && timeout_in_range(self.long_timeout_ms)
                && self.short_timeout_ms > self.long_timeout_ms ==> r == Err::<(), DwtConfigError>(
                DwtConfigError::OutOfOrder,
            ),
    {
        if !(1 <= self.short_timeout_ms && self.short_timeout_ms <= MAX_DWT_TIMEOUT_MS) {
            return Err(
                DwtConfigError::TimeoutRange {
                    name: "short_timeout_ms",
                    value: self.short_timeout_ms,
                    max: MAX_DWT_TIMEOUT_MS,
                },
            );
        }
        if !(1 <= self.long_timeout_ms && self.long_timeout_ms <= MAX_DWT_TIMEOUT_MS) {
            return Err(
                DwtConfigError::TimeoutRange {
                    name: "long_timeout_ms",
                    value: self.long_timeout_ms,
                    max: MAX_DWT_TIMEOUT_MS,
                },
            );
        }
        if self.short_timeout_ms > self.long_timeout_ms {
            return Err(DwtConfigError::OutOfOrder);
        }
        Ok(())
    }

    /// The short quiet period as a duration.
    pub fn short_timeout(&self) -> (d: Duration)
        ensures
            d == std_duration_from_millis(self.short_timeout_ms),
    {
        duration_from_millis(self.short_timeout_ms)
    }

    /// The long quiet period as a duration.
    pub fn long_timeout(&self) -> (d: Duration)
        ensures
            d == std_duration_from_millis(self.long_timeout_ms),
    {
        duration_from_millis(self.long_timeout_ms)
    }
}

impl Default for DwtConfig {
    fn default() -> (c: DwtConfig)
        ensures
            c == DwtConfig::spec_default(),
    {
        DwtConfig {
            enabled: true,
            short_timeout_ms: DEFAULT_DWT_SHORT_TIMEOUT_MS,
            long_timeout_ms: DEFAULT_DWT_LONG_TIMEOUT_MS,
        }
    }
}

/// The default configuration is accepted by validation, and its short
/// window is no longer than its long one.
pub proof fn lemma_default_is_valid()
    ensures
        DwtConfig::spec_default().spec_valid(),
        DwtConfig::spec_default().enabled,
{
}

} // verus!
