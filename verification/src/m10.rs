//! The `m10-linear-v1` bring-up policy profile: one named, versioned profile
//! whose every pointer, tap and two-finger parameter is typed, finite, and
//! validated through the ordinary fallible constructors.
//!
//! It is a conservative bring-up profile: a 1 mm pointer commit threshold
//! and a linear 10 px/mm scale; tap-to-click, tap-and-drag and sticky drag
//! lock with a 180 ms tap duration, a 3 mm tap movement limit and a 350 ms
//! follow-up gap; natural two-finger scrolling at 10 px/mm committing at
//! 1 mm; a two-finger secondary tap within 300 ms and 3 mm; and the
//! buttonpad two-finger secondary click. No acceleration, momentum, palm
//! handling or gestures.

use crate::arbiter::{
    TapConfig, TapConfigError, TapConfigView, TwoFingerConfig, TwoFingerConfigError,
    TwoFingerConfigView,
};
use crate::text::join;
use crate::time_span::{duration_from_millis, std_duration_from_millis};
use crate::arbiter::ArbiterConfig;
use crate::binary32;
use crate::units::{LogicalPixelsPerMm, Millimeters};
use vstd::prelude::*;

verus! {

/// The exact versioned profile name.
pub const M10_LINEAR_V1_NAME: &'static str = "m10-linear-v1";

/// Binary32 pattern of `1.0`.
pub const ONE_MM_BITS: u32 = 0x3f80_0000;

/// Binary32 pattern of `3.0`.
pub const THREE_MM_BITS: u32 = 0x4040_0000;

/// Binary32 pattern of `10.0`.
pub const TEN_PX_PER_MM_BITS: u32 = 0x4120_0000;

/// Failure of [`M10Profile::new`]: a documented constant failed its own
/// validation (unreachable with the current constants).
#[derive(Clone, Debug, PartialEq)]
pub enum M10ProfileError {
    /// The tap configuration was rejected.
    Tap(TapConfigError),
    /// The two-finger configuration was rejected.
    TwoFinger(TwoFingerConfigError),
}

impl M10ProfileError {
    /// The human-readable description.
    pub open spec fn spec_message(self) -> Seq<char> {
        match self {
            M10ProfileError::Tap(e) => {
                "m10-linear-v1 tap configuration is invalid: "@ + e.spec_message()
            },
            M10ProfileError::TwoFinger(e) => {
                "m10-linear-v1 two-finger configuration is invalid: "@ + e.spec_message()
            },
        }
    }

    /// The human-readable description.
    pub fn message(&self) -> (r: String)
        ensures
            r@ == self.spec_message(),
    {
        match self {
            M10ProfileError::Tap(e) => {
                let inner = e.message();
                join("m10-linear-v1 tap configuration is invalid: ", inner.as_str())
            },
            M10ProfileError::TwoFinger(e) => {
                let inner = e.message();
                join("m10-linear-v1 two-finger configuration is invalid: ", inner.as_str())
            },
        }
    }
}

/// The `m10-linear-v1` bring-up profile.
#[derive(Debug, PartialEq)]
pub struct M10Profile {
    motion_threshold_mm: Millimeters,
    logical_pixels_per_mm: LogicalPixelsPerMm,
    tap: TapConfig,
    two_finger: TwoFingerConfig,
}

/// The contents of an [`M10Profile`]: threshold and scale patterns, tap and
/// two-finger configuration contents.
pub struct M10ProfileView {
    pub motion_threshold_mm: u32,
    pub logical_pixels_per_mm: u32,
    pub tap: TapConfigView,
    pub two_finger: TwoFingerConfigView,
}

impl View for M10Profile {
    type V = M10ProfileView;

    closed spec fn view(&self) -> M10ProfileView {
        M10ProfileView {
            motion_threshold_mm: self.motion_threshold_mm@,
            logical_pixels_per_mm: self.logical_pixels_per_mm@,
            tap: self.tap@,
            two_finger: self.two_finger@,
        }
    }
}

/// The documented tap parameters.
pub open spec fn spec_m10_tap() -> TapConfigView {
    TapConfigView {
        tap_enabled: true,
        tap_and_drag_enabled: true,
        drag_lock_enabled: true,
        max_tap_duration: std_duration_from_millis(180),
        max_tap_movement_mm: THREE_MM_BITS,
        max_tap_drag_gap: std_duration_from_millis(350),
    }
}

/// The documented two-finger parameters.
pub open spec fn spec_m10_two_finger() -> TwoFingerConfigView {
    TwoFingerConfigView {
        scroll_enabled: true,
        natural: true,
        scroll_logical_pixels_per_mm: TEN_PX_PER_MM_BITS,
        scroll_commit_threshold_mm: ONE_MM_BITS,
        secondary_tap_enabled: true,
        two_finger_physical_click_enabled: true,
        max_secondary_tap_duration: std_duration_from_millis(300),
        max_secondary_tap_movement_mm: THREE_MM_BITS,
    }
}

/// The documented contents of the profile.
pub open spec fn spec_m10_profile() -> M10ProfileView {
    M10ProfileView {
        motion_threshold_mm: ONE_MM_BITS,
        logical_pixels_per_mm: TEN_PX_PER_MM_BITS,
        tap: spec_m10_tap(),
        two_finger: spec_m10_two_finger(),
    }
}

impl M10Profile {
    #[verifier::type_invariant]
    spec fn positive_threshold(self) -> bool {
        binary32::lt(binary32::ZERO_BITS, self.motion_threshold_mm@)
    }

    /// The versioned profile name.
    pub const NAME: &'static str = M10_LINEAR_V1_NAME;

    /// Constructs the validated profile. The documented constants always
    /// validate, so the result is always `Ok`.
    pub fn new() -> (r: Result<M10Profile, M10ProfileError>)
        ensures
            r is Ok,
            r matches Ok(p) ==> p@ == spec_m10_profile(),
    {
        let motion_threshold_mm = Millimeters::try_new(ONE_MM_BITS).unwrap();
        let logical_pixels_per_mm = LogicalPixelsPerMm::try_new(TEN_PX_PER_MM_BITS).unwrap();
        let tap = match TapConfig::new(
            true,
            true,
            true,
            duration_from_millis(180),
            Millimeters::try_new(THREE_MM_BITS).unwrap(),
            duration_from_millis(350),
        ) {
            Ok(tap) => tap,
            Err(error) => return Err(M10ProfileError::Tap(error)),
        };
        let two_finger = match TwoFingerConfig::new(
            true,
            true,
            LogicalPixelsPerMm::try_new(TEN_PX_PER_MM_BITS).unwrap(),
            Millimeters::try_new(ONE_MM_BITS).unwrap(),
            true,
            true,
            duration_from_millis(300),
            Millimeters::try_new(THREE_MM_BITS).unwrap(),
        ) {
            Ok(two_finger) => two_finger,
            Err(error) => return Err(M10ProfileError::TwoFinger(error)),
        };
        Ok(M10Profile { motion_threshold_mm, logical_pixels_per_mm, tap, two_finger })
    }

    /// The one-finger pointer commit threshold.
    pub fn motion_threshold_mm(&self) -> (r: Millimeters)
        ensures
            r@ == self@.motion_threshold_mm,
    {
        self.motion_threshold_mm
    }

    /// The one-finger linear millimeter-to-logical-pixel scale.
    pub fn logical_pixels_per_mm(&self) -> (r: LogicalPixelsPerMm)
        ensures
            r@ == self@.logical_pixels_per_mm,
    {
        self.logical_pixels_per_mm
    }

    /// The tap / tap-and-drag / drag-lock configuration.
    pub fn tap(&self) -> (r: &TapConfig)
        ensures
            r@ == self@.tap,
    {
        &self.tap
    }

    /// The two-finger scroll / secondary-tap / buttonpad-click
    /// configuration.
    pub fn two_finger(&self) -> (r: &TwoFingerConfig)
        ensures
            r@ == self@.two_finger,
    {
        &self.two_finger
    }
}

impl Clone for M10Profile {
    fn clone(&self) -> (r: M10Profile)
        ensures
            r@ == self@,
    {
        proof {
            use_type_invariant(self);
        }
        M10Profile {
            motion_threshold_mm: self.motion_threshold_mm,
            logical_pixels_per_mm: self.logical_pixels_per_mm,
            tap: self.tap.clone(),
            two_finger: self.two_finger.clone(),
        }
    }
}

impl M10Profile {
    /// The arbiter configuration of the profile: its threshold and scale,
    /// with its tap and two-finger configurations attached.
    pub fn arbiter_config(&self) -> (r: ArbiterConfig)
        ensures
            r.spec_threshold()@ == self@.motion_threshold_mm,
            r.spec_scale()@ == self@.logical_pixels_per_mm,
            r.spec_tap() matches Some(t) && t@ == self@.tap,
            r.spec_two_finger() matches Some(t) && t@ == self@.two_finger,
            r.spec_fidelity() is None,
            r.spec_gesture() is None,
            !r.spec_has_bindings(),
    {
        proof {
            use_type_invariant(self);
        }
        let config = ArbiterConfig::new(self.motion_threshold_mm, self.logical_pixels_per_mm).unwrap();
        config.with_tap(self.tap.clone()).with_two_finger(self.two_finger.clone())
    }
}

} // verus!
