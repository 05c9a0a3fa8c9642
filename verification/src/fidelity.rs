//! Configuration and failure modes of the one-finger pointer-fidelity stage.
//!
//! The stage (signed radial jitter dead zone, time-domain velocity estimate,
//! smoothstep gain between two velocities, tracking-speed multiplier)
//! applies to committed one-finger motion in millimeters. Its configuration
//! is fully typed and validated at construction: there is no way to build
//! an invalid [`FidelityConfig`]. Real-valued parameters are IEEE 754
//! binary64 bit patterns ([`binary64`]).

use crate::binary64;
use crate::binary64::{finite_positive, positive};
use crate::text::{hex_text, hex_u64, join};
use crate::rules::{all_hold, first_violation, first_violation_of, lemma_first_violation};
use crate::time_span::{duration_is_zero, std_duration_is_zero};
use crate::units::LogicalPixelsPerMm;
use std::time::Duration;
use vstd::prelude::*;

verus! {

/// Runtime fidelity arithmetic failure: non-finite or overflowing. A
/// dead-zone hold, a reset, and a re-anchor are normal outcomes, not errors.
#[derive(Clone, Copy, Debug, PartialEq, Eq, Structural)]
pub enum FidelityError {
    /// Fidelity arithmetic produced a non-finite (`NaN`) value.
    NonFinite,
    /// Fidelity arithmetic overflowed to infinity.
    Overflow,
}

/// Failure of [`FidelityConfig::new`]: a field or a relation between fields
/// is invalid. Real values are binary64 patterns.
#[derive(Clone, Copy, Debug, PartialEq, Eq, Structural)]
pub enum FidelityConfigError {
    /// The dead-zone radius must be finite and strictly positive.
    DeadZoneRadius(u64),
    /// The velocity time constant must be strictly positive.
    ZeroVelocityTau,
    /// The long gap must be strictly positive.
    ZeroLongGap,
    /// The gain curve's lower velocity must be finite and strictly positive.
    GainX0(u64),
    /// The gain curve's upper velocity must be finite and strictly greater
    /// than the lower one.
    GainX1(u64),
    /// The minimum gain must be finite and strictly positive.
    MinGain(u64),
    /// The maximum gain must be finite and not below the minimum gain.
    MaxGain(u64),
    /// The tracking-speed multiplier must be finite and strictly positive.
    TrackingSpeed(u64),
}

impl FidelityConfigError {
    /// The human-readable description; a value is shown as its binary64
    /// pattern.
    pub open spec fn spec_message(self) -> Seq<char> {
        match self {
            FidelityConfigError::DeadZoneRadius(value) => {
                "fidelity dead zone radius must be finite and strictly positive, got "@ + hex_text(value as nat, 16)
            },
            FidelityConfigError::ZeroVelocityTau => {
                "fidelity velocity time constant must be strictly positive"@
            },
            FidelityConfigError::ZeroLongGap => "fidelity long gap must be strictly positive"@,
            FidelityConfigError::GainX0(value) => {
                "fidelity gain curve x0 must be finite and strictly positive, got "@ + hex_text(value as nat, 16)
            },
            FidelityConfigError::GainX1(value) => {
                "fidelity gain curve x1 must be finite and strictly greater than x0, got "@ + hex_text(value as nat, 16)
            },
            FidelityConfigError::MinGain(value) => {
                "fidelity minimum gain must be finite and strictly positive, got "@ + hex_text(value as nat, 16)
            },
            FidelityConfigError::MaxGain(value) => {
                "fidelity maximum gain must be finite and not below the minimum gain, got "@ + hex_text(value as nat, 16)
            },
            FidelityConfigError::TrackingSpeed(value) => {
                "fidelity tracking speed must be finite and strictly positive, got "@ + hex_text(value as nat, 16)
            },
        }
    }

    /// The human-readable description.
    pub fn message(&self) -> (r: String)
        ensures
            r@ == self.spec_message(),
    {
        match self {
            FidelityConfigError::DeadZoneRadius(value) => {
                let shown = hex_u64(*value);
                join("fidelity dead zone radius must be finite and strictly positive, got ", shown.as_str())
            },
            FidelityConfigError::ZeroVelocityTau => {
                "fidelity velocity time constant must be strictly positive".to_owned()
            },
            FidelityConfigError::ZeroLongGap => {
                "fidelity long gap must be strictly positive".to_owned()
            },
            FidelityConfigError::GainX0(value) => {
                let shown = hex_u64(*value);
                join("fidelity gain curve x0 must be finite and strictly positive, got ", shown.as_str())
            },
            FidelityConfigError::GainX1(value) => {
                let shown = hex_u64(*value);
                join("fidelity gain curve x1 must be finite and strictly greater than x0, got ", shown.as_str())
            },
            FidelityConfigError::MinGain(value) => {
                let shown = hex_u64(*value);
                join("fidelity minimum gain must be finite and strictly positive, got ", shown.as_str())
            },
            FidelityConfigError::MaxGain(value) => {
                let shown = hex_u64(*value);
                join("fidelity maximum gain must be finite and not below the minimum gain, got ", shown.as_str())
            },
            FidelityConfigError::TrackingSpeed(value) => {
                let shown = hex_u64(*value);
                join("fidelity tracking speed must be finite and strictly positive, got ", shown.as_str())
            },
        }
    }
}

/// The contents of a [`FidelityConfig`].
pub struct FidelityConfigView {
    pub dead_zone_radius_mm: u64,
    pub velocity_tau: Duration,
    pub long_gap: Duration,
    pub gain_x0_mm_per_s: u64,
    pub gain_x1_mm_per_s: u64,
    pub min_gain: u64,
    pub max_gain: u64,
    /// Binary32 pattern of the base scale.
    pub base_px_per_mm: u32,
    pub tracking_speed: u64,
}

/// The rules a fidelity configuration must meet, each with the error
/// reported when it is broken, in the order they are checked.
pub open spec fn fidelity_rules(v: FidelityConfigView) -> Seq<(bool, FidelityConfigError)> {
    seq![
        (
            finite_positive(v.dead_zone_radius_mm),
            FidelityConfigError::DeadZoneRadius(v.dead_zone_radius_mm),
        ),
        (!std_duration_is_zero(v.velocity_tau), FidelityConfigError::ZeroVelocityTau),
        (!std_duration_is_zero(v.long_gap), FidelityConfigError::ZeroLongGap),
        (finite_positive(v.gain_x0_mm_per_s), FidelityConfigError::GainX0(v.gain_x0_mm_per_s)),
        (
            binary64::is_finite(v.gain_x1_mm_per_s) && binary64::lt(
                v.gain_x0_mm_per_s,
                v.gain_x1_mm_per_s,
            ),
            FidelityConfigError::GainX1(v.gain_x1_mm_per_s),
        ),
        (finite_positive(v.min_gain), FidelityConfigError::MinGain(v.min_gain)),
        (
            binary64::is_finite(v.max_gain) && !binary64::lt(v.max_gain, v.min_gain),
            FidelityConfigError::MaxGain(v.max_gain),
        ),
        (finite_positive(v.tracking_speed), FidelityConfigError::TrackingSpeed(v.tracking_speed)),
    ]
}

/// Whether fidelity configuration contents are valid.
pub open spec fn fidelity_config_valid(v: FidelityConfigView) -> bool {
    all_hold(fidelity_rules(v))
}

/// The validated fidelity configuration.
#[derive(Clone, Copy, Debug, PartialEq)]
pub struct FidelityConfig {
    dead_zone_radius_mm: u64,
    velocity_tau: Duration,
    long_gap: Duration,
    gain_x0_mm_per_s: u64,
    gain_x1_mm_per_s: u64,
    min_gain: u64,
    max_gain: u64,
    base_px_per_mm: LogicalPixelsPerMm,
    tracking_speed: u64,
}

impl View for FidelityConfig {
    type V = FidelityConfigView;

    closed spec fn view(&self) -> FidelityConfigView {
        FidelityConfigView {
            dead_zone_radius_mm: self.dead_zone_radius_mm,
            velocity_tau: self.velocity_tau,
            long_gap: self.long_gap,
            gain_x0_mm_per_s: self.gain_x0_mm_per_s,
            gain_x1_mm_per_s: self.gain_x1_mm_per_s,
            min_gain: self.min_gain,
            max_gain: self.max_gain,
            base_px_per_mm: self.base_px_per_mm@,
            tracking_speed: self.tracking_speed,
        }
    }
}

impl FidelityConfig {
    /// Every fidelity configuration is valid.
    #[verifier::type_invariant]
    closed spec fn wf(self) -> bool {
        fidelity_config_valid(self@)
    }

    /// Creates a validated configuration. The fields are checked in order
    /// (dead zone, velocity time constant, long gap, gain curve lower and
    /// upper velocity, minimum and maximum gain, tracking speed) and the
    /// first invalid one is reported.
    pub fn new(
        dead_zone_radius_mm: u64,
        velocity_tau: Duration,
        long_gap: Duration,
        gain_x0_mm_per_s: u64,
        gain_x1_mm_per_s: u64,
        min_gain: u64,
        max_gain: u64,
        base_px_per_mm: LogicalPixelsPerMm,
        tracking_speed: u64,
    ) -> (r: Result<FidelityConfig, FidelityConfigError>)
        ensures
            ({
                let v = FidelityConfigView {
                    dead_zone_radius_mm,
                    velocity_tau,
                    long_gap,
                    gain_x0_mm_per_s,
                    gain_x1_mm_per_s,
                    min_gain,
                    max_gain,
                    base_px_per_mm: base_px_per_mm@,
                    tracking_speed,
                };
                &&& r is Ok <==> fidelity_config_valid(v)
                &&& r matches Ok(c) ==> c@ == v
                &&& r matches Err(e) ==> first_violation(fidelity_rules(v)) == Err::<
                    (),
                    FidelityConfigError,
                >(e)
            }),
    {
        let ghost v = FidelityConfigView {
            dead_zone_radius_mm,
            velocity_tau,
            long_gap,
            gain_x0_mm_per_s,
            gain_x1_mm_per_s,
            min_gain,
            max_gain,
            base_px_per_mm: base_px_per_mm@,
            tracking_speed,
        };
        let rules = vec![
            (positive(dead_zone_radius_mm), FidelityConfigError::DeadZoneRadius(dead_zone_radius_mm)),
            (!duration_is_zero(&velocity_tau), FidelityConfigError::ZeroVelocityTau),
            (!duration_is_zero(&long_gap), FidelityConfigError::ZeroLongGap),
            (positive(gain_x0_mm_per_s), FidelityConfigError::GainX0(gain_x0_mm_per_s)),
            (
                binary64::finite(gain_x1_mm_per_s) && binary64::less_than(
                    gain_x0_mm_per_s,
                    gain_x1_mm_per_s,
                ),
                FidelityConfigError::GainX1(gain_x1_mm_per_s),
            ),
            (positive(min_gain), FidelityConfigError::MinGain(min_gain)),
            (
                binary64::finite(max_gain) && !binary64::less_than(max_gain, min_gain),
                FidelityConfigError::MaxGain(max_gain),
            ),
            (positive(tracking_speed), FidelityConfigError::TrackingSpeed(tracking_speed)),
        ];
        proof {
            assert(rules@ =~= fidelity_rules(v));
            lemma_first_violation(fidelity_rules(v));
        }
        match first_violation_of(rules) {
            Ok(()) => Ok(
                FidelityConfig {
                    dead_zone_radius_mm,
                    velocity_tau,
                    long_gap,
                    gain_x0_mm_per_s,
                    gain_x1_mm_per_s,
                    min_gain,
                    max_gain,
                    base_px_per_mm,
                    tracking_speed,
                },
            ),
            Err(e) => Err(e),
        }
    }

    /// The signed radial jitter dead-zone radius in millimeters (binary64
    /// pattern; finite and strictly positive).
    pub fn dead_zone_radius_mm(&self) -> (r: u64)
        ensures
            r == self@.dead_zone_radius_mm,
            finite_positive(r),
    {
        proof {
            use_type_invariant(self);
            assert(fidelity_rules(self@)[0].0);
        }
        self.dead_zone_radius_mm
    }

    /// The velocity estimate's time constant (not zero).
    pub fn velocity_tau(&self) -> (r: Duration)
        ensures
            r == self@.velocity_tau,
            !std_duration_is_zero(r),
    {
        proof {
            use_type_invariant(self);
            assert(fidelity_rules(self@)[1].0);
        }
        self.velocity_tau
    }

    /// The inclusive long gap: an elapsed time at or above it discards the
    /// gap-crossing displacement and re-anchors (not zero).
    pub fn long_gap(&self) -> (r: Duration)
        ensures
            r == self@.long_gap,
            !std_duration_is_zero(r),
    {
        proof {
            use_type_invariant(self);
            assert(fidelity_rules(self@)[2].0);
        }
        self.long_gap
    }

    /// The lower velocity (mm/s) of the smoothstep gain curve (finite and
    /// strictly positive).
    pub fn gain_x0_mm_per_s(&self) -> (r: u64)
        ensures
            r == self@.gain_x0_mm_per_s,
            finite_positive(r),
    {
        proof {
            use_type_invariant(self);
            assert(fidelity_rules(self@)[3].0);
        }
        self.gain_x0_mm_per_s
    }

    /// The upper velocity (mm/s) of the smoothstep gain curve (finite and
    /// strictly above the lower one).
    pub fn gain_x1_mm_per_s(&self) -> (r: u64)
        ensures
            r == self@.gain_x1_mm_per_s,
            binary64::is_finite(r),
            binary64::lt(self@.gain_x0_mm_per_s, r),
    {
        proof {
            use_type_invariant(self);
            assert(fidelity_rules(self@)[4].0);
        }
        self.gain_x1_mm_per_s
    }

    /// The minimum gain (finite and strictly positive).
    pub fn min_gain(&self) -> (r: u64)
        ensures
            r == self@.min_gain,
            finite_positive(r),
    {
        proof {
            use_type_invariant(self);
            assert(fidelity_rules(self@)[5].0);
        }
        self.min_gain
    }

    /// The maximum gain (finite and not below the minimum gain).
    pub fn max_gain(&self) -> (r: u64)
        ensures
            r == self@.max_gain,
            binary64::is_finite(r),
            !binary64::lt(r, self@.min_gain),
    {
        proof {
            use_type_invariant(self);
            assert(fidelity_rules(self@)[6].0);
        }
        self.max_gain
    }

    /// The base logical-pixels-per-millimeter scale.
    pub fn base_px_per_mm(&self) -> (r: LogicalPixelsPerMm)
        ensures
            r@ == self@.base_px_per_mm,
    {
        self.base_px_per_mm
    }

    /// The tracking-speed multiplier (finite and strictly positive).
    pub fn tracking_speed(&self) -> (r: u64)
        ensures
            r == self@.tracking_speed,
            finite_positive(r),
    {
        proof {
            use_type_invariant(self);
            assert(fidelity_rules(self@)[7].0);
        }
        self.tracking_speed
    }
}

} // verus!
