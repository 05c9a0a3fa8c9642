//! The experimental, opt-in `m11-fidelity-v1` one-finger pointer-fidelity
//! profile: the whole `m10-linear-v1` configuration, taken from
//! [`M10Profile::new`] rather than copied, plus one validated
//! [`FidelityConfig`]: a 0.09 mm dead zone, a 20 ms velocity time
//! constant, a 150 ms inclusive long gap, a 50..600 mm/s smoothstep gain
//! curve from 1.0 to 2.0, the M10 base scale of 10 px/mm, and a tracking
//! multiplier of 1.0.

use crate::arbiter::{ArbiterConfig, TapConfig, TwoFingerConfig};
use crate::binary64::{BITS_0_09, BITS_1, BITS_2, BITS_50, BITS_600};
use crate::fidelity::{FidelityConfig, FidelityConfigError, FidelityConfigView};
use crate::m10::{spec_m10_profile, M10Profile, M10ProfileError, M10ProfileView, TEN_PX_PER_MM_BITS};
use crate::text::join;
use crate::time_span::{duration_from_millis, std_duration_from_millis};
use crate::units::{LogicalPixelsPerMm, Millimeters};
use vstd::prelude::*;

verus! {

/// The exact versioned profile name.
pub const M11_FIDELITY_V1_NAME: &'static str = "m11-fidelity-v1";

/// Failure of [`M11Profile::new`]: a documented constant failed its own
/// validation (unreachable with the current constants).
#[derive(Clone, Debug, PartialEq)]
pub enum M11ProfileError {
    /// The underlying M10 profile could not be constructed.
    M10(M10ProfileError),
    /// The fidelity configuration was rejected.
    Fidelity(FidelityConfigError),
}

impl M11ProfileError {
    /// The human-readable description.
    pub open spec fn spec_message(self) -> Seq<char> {
        match self {
            M11ProfileError::M10(e) => {
                "m11-fidelity-v1 base M10 profile is invalid: "@ + e.spec_message()
            },
            M11ProfileError::Fidelity(e) => {
                "m11-fidelity-v1 fidelity configuration is invalid: "@ + e.spec_message()
            },
        }
    }

    /// The human-readable description.
    pub fn message(&self) -> (r: String)
        ensures
            r@ == self.spec_message(),
    {
        match self {
            M11ProfileError::M10(e) => {
                let inner = e.message();
                join("m11-fidelity-v1 base M10 profile is invalid: ", inner.as_str())
            },
            M11ProfileError::Fidelity(e) => {
                let inner = e.message();
                join("m11-fidelity-v1 fidelity configuration is invalid: ", inner.as_str())
            },
        }
    }
}

/// The `m11-fidelity-v1` profile.
#[derive(Clone, Debug, PartialEq)]
pub struct M11Profile {
    base: M10Profile,
    fidelity: FidelityConfig,
}

/// The contents of an [`M11Profile`].
pub struct M11ProfileView {
    pub base: M10ProfileView,
    pub fidelity: FidelityConfigView,
}

impl View for M11Profile {
    type V = M11ProfileView;

    closed spec fn view(&self) -> M11ProfileView {
        M11ProfileView { base: self.base@, fidelity: self.fidelity@ }
    }
}

/// The documented fidelity parameters.
pub open spec fn spec_m11_fidelity() -> FidelityConfigView {
    FidelityConfigView {
        dead_zone_radius_mm: BITS_0_09,
        velocity_tau: std_duration_from_millis(20),
        long_gap: std_duration_from_millis(150),
        gain_x0_mm_per_s: BITS_50,
        gain_x1_mm_per_s: BITS_600,
        min_gain: BITS_1,
        max_gain: BITS_2,
        base_px_per_mm: TEN_PX_PER_MM_BITS,
        tracking_speed: BITS_1,
    }
}

impl M11Profile {
    /// The versioned profile name.
    pub const NAME: &'static str = M11_FIDELITY_V1_NAME;

    /// Constructs the validated profile: every M10 value unchanged, plus the
    /// documented fidelity parameters. The constants always validate, so
    /// the result is always `Ok`.
    pub fn new() -> (r: Result<M11Profile, M11ProfileError>)
        ensures
            r is Ok,
            r matches Ok(p) ==> p@.base == spec_m10_profile() && p@.fidelity == spec_m11_fidelity(),
    {
        let base = match M10Profile::new() {
            Ok(base) => base,
            Err(error) => return Err(M11ProfileError::M10(error)),
        };
        let fidelity = match FidelityConfig::new(
            BITS_0_09,
            duration_from_millis(20),
            duration_from_millis(150),
            BITS_50,
            BITS_600,
            BITS_1,
            BITS_2,
            base.logical_pixels_per_mm(),
            BITS_1,
        ) {
            Ok(fidelity) => fidelity,
            Err(error) => return Err(M11ProfileError::Fidelity(error)),
        };
        Ok(M11Profile { base, fidelity })
    }

    /// The validated fidelity configuration this profile adds.
    pub fn fidelity_config(&self) -> (r: &FidelityConfig)
        ensures
            r@ == self@.fidelity,
    {
        &self.fidelity
    }

    /// The inherited `m10-linear-v1` profile.
    pub fn m10_profile(&self) -> (r: &M10Profile)
        ensures
            r@ == self@.base,
    {
        &self.base
    }

    /// The one-finger pointer commit threshold (inherited).
    pub fn motion_threshold_mm(&self) -> (r: Millimeters)
        ensures
            r@ == self@.base.motion_threshold_mm,
    {
        self.base.motion_threshold_mm()
    }

    /// The one-finger linear millimeter-to-logical-pixel scale (inherited;
    /// also the fidelity base scale).
    pub fn logical_pixels_per_mm(&self) -> (r: LogicalPixelsPerMm)
        ensures
            r@ == self@.base.logical_pixels_per_mm,
    {
        self.base.logical_pixels_per_mm()
    }

    /// The tap / tap-and-drag / drag-lock configuration (inherited).
    pub fn tap(&self) -> (r: &TapConfig)
        ensures
            r@ == self@.base.tap,
    {
        self.base.tap()
    }

    /// The two-finger configuration (inherited).
    pub fn two_finger(&self) -> (r: &TwoFingerConfig)
        ensures
            r@ == self@.base.two_finger,
    {
        self.base.two_finger()
    }
}

impl M11Profile {
    /// The arbiter configuration of the profile: that of its base profile,
    /// with its fidelity configuration attached.
    pub fn arbiter_config(&self) -> (r: ArbiterConfig)
        ensures
            r.spec_threshold()@ == self@.base.motion_threshold_mm,
            r.spec_scale()@ == self@.base.logical_pixels_per_mm,
            r.spec_tap() matches Some(t) && t@ == self@.base.tap,
            r.spec_two_finger() matches Some(t) && t@ == self@.base.two_finger,
            r.spec_fidelity() matches Some(f) && f@ == self@.fidelity,
            r.spec_gesture() is None,
            !r.spec_has_bindings(),
    {
        self.base.arbiter_config().with_fidelity(self.fidelity)
    }
}

} // verus!
