//! Strict, versioned feel-tuning overlay.
//!
//! [`FeelConfig`] holds only perceptual tuning controls. Device selection,
//! takeover opt-ins, service lifecycle, tap timing and output qualification
//! live elsewhere.
//!
//! Every real-valued control holds the IEEE 754 binary64 bit pattern of its
//! value; ranges and orderings are those of the binary64 values
//! ([`binary64`]).

use crate::binary64;
use crate::binary64::{
    BITS_0_01, BITS_0_05, BITS_0_09, BITS_0_1, BITS_0_2, BITS_0_25, BITS_0_3, BITS_0_5,
    BITS_0_6, BITS_0_8, BITS_1, BITS_1_05, BITS_1_2, BITS_1_5, BITS_1_75, BITS_2, BITS_2_5,
    BITS_3, BITS_4, BITS_5, BITS_6, BITS_8, BITS_10, BITS_25, BITS_35, BITS_50, BITS_200,
    BITS_1200,
};
use crate::gesture_bindings::str_equals;
use crate::rules::{all_hold, first_violation, first_violation_of, lemma_first_violation};
use vstd::prelude::*;

verus! {

/// The supported feel-configuration format version.
pub const FEEL_CONFIG_VERSION: u32 = 1;

/// Smallest accepted momentum time constant, in milliseconds.
pub const MOMENTUM_TAU_MIN_MS: u64 = 50;

/// Largest accepted momentum time constant, in milliseconds.
pub const MOMENTUM_TAU_MAX_MS: u64 = 1200;

/// Pointer-motion feel (binary64 patterns).
#[derive(Clone, Copy, Debug, PartialEq, Eq, Structural)]
pub struct PointerFeel {
    pub dead_zone_radius_mm: u64,
    pub tracking_speed: u64,
    pub min_gain: u64,
    pub max_gain: u64,
}

/// Scrolling feel (binary64 patterns, except the time constant).
#[derive(Clone, Copy, Debug, PartialEq, Eq, Structural)]
pub struct ScrollFeel {
    pub min_gain: u64,
    pub max_gain: u64,
    pub axis_lock_engage_ratio: u64,
    pub axis_lock_release_ratio: u64,
    pub momentum_tau_ms: u64,
    pub momentum_start_speed_mm_per_s: u64,
    pub momentum_stop_speed_mm_per_s: u64,
}

/// Gesture commit distances (binary64 patterns).
#[derive(Clone, Copy, Debug, PartialEq, Eq, Structural)]
pub struct GestureFeel {
    pub pinch_commit_mm: u64,
    pub page_swipe_commit_mm: u64,
    pub multi_swipe_commit_mm: u64,
}

/// Three-finger drag feel.
#[derive(Clone, Copy, Debug, PartialEq, Eq, Structural)]
pub struct DragFeel {
    /// Binary64 pattern of the commit distance in millimeters.
    pub commit_threshold_mm: u64,
    pub drag_lock: bool,
}

/// The whole feel overlay. Equality compares the stored bit patterns.
#[derive(Clone, Copy, Debug, PartialEq, Eq, Structural)]
pub struct FeelConfig {
    pub version: u32,
    pub pointer: PointerFeel,
    pub scroll: ScrollFeel,
    pub gesture: GestureFeel,
    pub drag: DragFeel,
}

/// Why a feel configuration or an edit of it is rejected. Real values are
/// binary64 patterns.
#[derive(Clone, Debug, PartialEq, Eq)]
pub enum FeelConfigError {
    /// The format version is not [`FEEL_CONFIG_VERSION`].
    UnsupportedVersion(u32),
    /// A real-valued control is not finite or lies outside `[min, max]`.
    Range { name: &'static str, value: u64, min: u64, max: u64 },
    /// An integer control lies outside `[min, max]`.
    IntegerRange { name: &'static str, value: u64, min: u64, max: u64 },
    /// Two controls are in the wrong order; the text says which.
    OutOfOrder(&'static str),
    /// The edited key names no control.
    UnknownKey(String),
    /// The value for a real-valued control is no number.
    InvalidNumber(String),
    /// The value for an integer or boolean control does not parse.
    InvalidValue { key: String, value: String },
}

/// How the value of a control is written.
#[derive(Clone, Copy, Debug, PartialEq, Eq, Structural)]
pub enum FeelValueKind {
    /// A real number (binary64).
    Number,
    /// An unsigned integer.
    Integer,
    /// `true` or `false`.
    Flag,
}

/// A parsed value for one control.
#[derive(Clone, Copy, Debug, PartialEq, Eq, Structural)]
pub enum FeelValue {
    /// Binary64 pattern of a real number.
    Number(u64),
    Integer(u64),
    Flag(bool),
}

impl FeelValue {
    /// The kind of the value.
    pub open spec fn spec_kind(self) -> FeelValueKind {
        match self {
            FeelValue::Number(_) => FeelValueKind::Number,
            FeelValue::Integer(_) => FeelValueKind::Integer,
            FeelValue::Flag(_) => FeelValueKind::Flag,
        }
    }
}

/// One editable control, named by its dotted key.
#[derive(Clone, Copy, Debug, PartialEq, Eq, Structural)]
pub enum FeelKey {
    PointerDeadZoneRadiusMm,
    PointerTrackingSpeed,
    PointerMinGain,
    PointerMaxGain,
    ScrollMinGain,
    ScrollMaxGain,
    ScrollAxisLockEngageRatio,
    ScrollAxisLockReleaseRatio,
    ScrollMomentumTauMs,
    ScrollMomentumStartSpeed,
    ScrollMomentumStopSpeed,
    GesturePinchCommitMm,
    GesturePageSwipeCommitMm,
    GestureMultiSwipeCommitMm,
    DragCommitThresholdMm,
    DragLock,
}

/// Every key, in the order of [`feel_parameter_specs`].
pub open spec fn spec_all_feel_keys() -> Seq<FeelKey> {
    seq![
        FeelKey::PointerDeadZoneRadiusMm,
        FeelKey::PointerTrackingSpeed,
        FeelKey::PointerMinGain,
        FeelKey::PointerMaxGain,
        FeelKey::ScrollMinGain,
        FeelKey::ScrollMaxGain,
        FeelKey::ScrollAxisLockEngageRatio,
        FeelKey::ScrollAxisLockReleaseRatio,
        FeelKey::ScrollMomentumTauMs,
        FeelKey::ScrollMomentumStartSpeed,
        FeelKey::ScrollMomentumStopSpeed,
        FeelKey::GesturePinchCommitMm,
        FeelKey::GesturePageSwipeCommitMm,
        FeelKey::GestureMultiSwipeCommitMm,
        FeelKey::DragCommitThresholdMm,
        FeelKey::DragLock,
    ]
}

impl FeelKey {
    /// The dotted key text.
    pub open spec fn spec_key_str(self) -> &'static str {
        match self {
            FeelKey::PointerDeadZoneRadiusMm => "pointer.dead_zone_radius_mm",
            FeelKey::PointerTrackingSpeed => "pointer.tracking_speed",
            FeelKey::PointerMinGain => "pointer.min_gain",
            FeelKey::PointerMaxGain => "pointer.max_gain",
            FeelKey::ScrollMinGain => "scroll.min_gain",
            FeelKey::ScrollMaxGain => "scroll.max_gain",
            FeelKey::ScrollAxisLockEngageRatio => "scroll.axis_lock_engage_ratio",
            FeelKey::ScrollAxisLockReleaseRatio => "scroll.axis_lock_release_ratio",
            FeelKey::ScrollMomentumTauMs => "scroll.momentum_tau_ms",
            FeelKey::ScrollMomentumStartSpeed => "scroll.momentum_start_speed_mm_per_s",
            FeelKey::ScrollMomentumStopSpeed => "scroll.momentum_stop_speed_mm_per_s",
            FeelKey::GesturePinchCommitMm => "gesture.pinch_commit_mm",
            FeelKey::GesturePageSwipeCommitMm => "gesture.page_swipe_commit_mm",
            FeelKey::GestureMultiSwipeCommitMm => "gesture.multi_swipe_commit_mm",
            FeelKey::DragCommitThresholdMm => "drag.commit_threshold_mm",
            FeelKey::DragLock => "drag.drag_lock",
        }
    }

    /// The key whose text is `name`, if any.
    pub open spec fn spec_from_name(name: Seq<char>) -> Option<FeelKey> {
        if name == "pointer.dead_zone_radius_mm"@ {
            Some(FeelKey::PointerDeadZoneRadiusMm)
        } else if name == "pointer.tracking_speed"@ {
            Some(FeelKey::PointerTrackingSpeed)
        } else if name == "pointer.min_gain"@ {
            Some(FeelKey::PointerMinGain)
        } else if name == "pointer.max_gain"@ {
            Some(FeelKey::PointerMaxGain)
        } else if name == "scroll.min_gain"@ {
            Some(FeelKey::ScrollMinGain)
        } else if name == "scroll.max_gain"@ {
            Some(FeelKey::ScrollMaxGain)
        } else if name == "scroll.axis_lock_engage_ratio"@ {
            Some(FeelKey::ScrollAxisLockEngageRatio)
        } else if name == "scroll.axis_lock_release_ratio"@ {
            Some(FeelKey::ScrollAxisLockReleaseRatio)
        } else if name == "scroll.momentum_tau_ms"@ {
            Some(FeelKey::ScrollMomentumTauMs)
        } else if name == "scroll.momentum_start_speed_mm_per_s"@ {
            Some(FeelKey::ScrollMomentumStartSpeed)
        } else if name == "scroll.momentum_stop_speed_mm_per_s"@ {
            Some(FeelKey::ScrollMomentumStopSpeed)
        } else if name == "gesture.pinch_commit_mm"@ {
            Some(FeelKey::GesturePinchCommitMm)
        } else if name == "gesture.page_swipe_commit_mm"@ {
            Some(FeelKey::GesturePageSwipeCommitMm)
        } else if name == "gesture.multi_swipe_commit_mm"@ {
            Some(FeelKey::GestureMultiSwipeCommitMm)
        } else if name == "drag.commit_threshold_mm"@ {
            Some(FeelKey::DragCommitThresholdMm)
        } else if name == "drag.drag_lock"@ {
            Some(FeelKey::DragLock)
        } else {
            None
        }
    }

    /// How the control's value is written.
    pub open spec fn spec_kind(self) -> FeelValueKind {
        match self {
            FeelKey::ScrollMomentumTauMs => FeelValueKind::Integer,
            FeelKey::DragLock => FeelValueKind::Flag,
            _ => FeelValueKind::Number,
        }
    }

    /// The accepted `[min, max]` of a real-valued control, as binary64
    /// patterns.
    pub open spec fn spec_range(self) -> Option<(u64, u64)> {
        match self {
            FeelKey::PointerDeadZoneRadiusMm => Some((BITS_0_01, BITS_0_3)),
            FeelKey::PointerTrackingSpeed => Some((BITS_0_25, BITS_4)),
            FeelKey::PointerMinGain => Some((BITS_0_5, BITS_2)),
            FeelKey::PointerMaxGain => Some((BITS_0_5, BITS_4)),
            FeelKey::ScrollMinGain => Some((BITS_0_5, BITS_2)),
            FeelKey::ScrollMaxGain => Some((BITS_0_5, BITS_4)),
            FeelKey::ScrollAxisLockEngageRatio => Some((BITS_1_2, BITS_6)),
            FeelKey::ScrollAxisLockReleaseRatio => Some((BITS_1_05, BITS_4)),
            FeelKey::ScrollMomentumTauMs => None,
            FeelKey::ScrollMomentumStartSpeed => Some((BITS_10, BITS_200)),
            FeelKey::ScrollMomentumStopSpeed => Some((BITS_1, BITS_50)),
            FeelKey::GesturePinchCommitMm => Some((BITS_0_2, BITS_3)),
            FeelKey::GesturePageSwipeCommitMm => Some((BITS_0_3, BITS_5)),
            FeelKey::GestureMultiSwipeCommitMm => Some((BITS_1, BITS_8)),
            FeelKey::DragCommitThresholdMm => Some((BITS_0_6, BITS_4)),
            FeelKey::DragLock => None,
        }
    }

    /// The dotted key text.
    pub fn name(&self) -> (r: &'static str)
        ensures
            r == self.spec_key_str(),
    {
        match self {
            FeelKey::PointerDeadZoneRadiusMm => "pointer.dead_zone_radius_mm",
            FeelKey::PointerTrackingSpeed => "pointer.tracking_speed",
            FeelKey::PointerMinGain => "pointer.min_gain",
            FeelKey::PointerMaxGain => "pointer.max_gain",
            FeelKey::ScrollMinGain => "scroll.min_gain",
            FeelKey::ScrollMaxGain => "scroll.max_gain",
            FeelKey::ScrollAxisLockEngageRatio => "scroll.axis_lock_engage_ratio",
            FeelKey::ScrollAxisLockReleaseRatio => "scroll.axis_lock_release_ratio",
            FeelKey::ScrollMomentumTauMs => "scroll.momentum_tau_ms",
            FeelKey::ScrollMomentumStartSpeed => "scroll.momentum_start_speed_mm_per_s",
            FeelKey::ScrollMomentumStopSpeed => "scroll.momentum_stop_speed_mm_per_s",
            FeelKey::GesturePinchCommitMm => "gesture.pinch_commit_mm",
            FeelKey::GesturePageSwipeCommitMm => "gesture.page_swipe_commit_mm",
            FeelKey::GestureMultiSwipeCommitMm => "gesture.multi_swipe_commit_mm",
            FeelKey::DragCommitThresholdMm => "drag.commit_threshold_mm",
            FeelKey::DragLock => "drag.drag_lock",
        }
    }

    /// Looks a key up by its dotted text.
    pub fn from_name(name: &str) -> (r: Option<FeelKey>)
        ensures
            r == FeelKey::spec_from_name(name@),
    {
        if str_equals(name, "pointer.dead_zone_radius_mm") {
            Some(FeelKey::PointerDeadZoneRadiusMm)
        } else if str_equals(name, "pointer.tracking_speed") {
            Some(FeelKey::PointerTrackingSpeed)
        } else if str_equals(name, "pointer.min_gain") {
            Some(FeelKey::PointerMinGain)
        } else if str_equals(name, "pointer.max_gain") {
            Some(FeelKey::PointerMaxGain)
        } else if str_equals(name, "scroll.min_gain") {
            Some(FeelKey::ScrollMinGain)
        } else if str_equals(name, "scroll.max_gain") {
            Some(FeelKey::ScrollMaxGain)
        } else if str_equals(name, "scroll.axis_lock_engage_ratio") {
            Some(FeelKey::ScrollAxisLockEngageRatio)
        } else if str_equals(name, "scroll.axis_lock_release_ratio") {
            Some(FeelKey::ScrollAxisLockReleaseRatio)
        } else if str_equals(name, "scroll.momentum_tau_ms") {
            Some(FeelKey::ScrollMomentumTauMs)
        } else if str_equals(name, "scroll.momentum_start_speed_mm_per_s") {
            Some(FeelKey::ScrollMomentumStartSpeed)
        } else if str_equals(name, "scroll.momentum_stop_speed_mm_per_s") {
            Some(FeelKey::ScrollMomentumStopSpeed)
        } else if str_equals(name, "gesture.pinch_commit_mm") {
            Some(FeelKey::GesturePinchCommitMm)
        } else if str_equals(name, "gesture.page_swipe_commit_mm") {
            Some(FeelKey::GesturePageSwipeCommitMm)
        } else if str_equals(name, "gesture.multi_swipe_commit_mm") {
            Some(FeelKey::GestureMultiSwipeCommitMm)
        } else if str_equals(name, "drag.commit_threshold_mm") {
            Some(FeelKey::DragCommitThresholdMm)
        } else if str_equals(name, "drag.drag_lock") {
            Some(FeelKey::DragLock)
        } else {
            None
        }
    }

    /// How the control's value is written.
    pub fn kind(&self) -> (r: FeelValueKind)
        ensures
            r == self.spec_kind(),
    {
        match self {
            FeelKey::ScrollMomentumTauMs => FeelValueKind::Integer,
            FeelKey::DragLock => FeelValueKind::Flag,
            _ => FeelValueKind::Number,
        }
    }

    /// The accepted `[min, max]` of a real-valued control.
    pub fn range(&self) -> (r: Option<(u64, u64)>)
        ensures
            r == self.spec_range(),
    {
        match self {
            FeelKey::PointerDeadZoneRadiusMm => Some((BITS_0_01, BITS_0_3)),
            FeelKey::PointerTrackingSpeed => Some((BITS_0_25, BITS_4)),
            FeelKey::PointerMinGain => Some((BITS_0_5, BITS_2)),
            FeelKey::PointerMaxGain => Some((BITS_0_5, BITS_4)),
            FeelKey::ScrollMinGain => Some((BITS_0_5, BITS_2)),
            FeelKey::ScrollMaxGain => Some((BITS_0_5, BITS_4)),
            FeelKey::ScrollAxisLockEngageRatio => Some((BITS_1_2, BITS_6)),
            FeelKey::ScrollAxisLockReleaseRatio => Some((BITS_1_05, BITS_4)),
            FeelKey::ScrollMomentumTauMs => None,
            FeelKey::ScrollMomentumStartSpeed => Some((BITS_10, BITS_200)),
            FeelKey::ScrollMomentumStopSpeed => Some((BITS_1, BITS_50)),
            FeelKey::GesturePinchCommitMm => Some((BITS_0_2, BITS_3)),
            FeelKey::GesturePageSwipeCommitMm => Some((BITS_0_3, BITS_5)),
            FeelKey::GestureMultiSwipeCommitMm => Some((BITS_1, BITS_8)),
            FeelKey::DragCommitThresholdMm => Some((BITS_0_6, BITS_4)),
            FeelKey::DragLock => None,
        }
    }
}

/// Whether a binary64 value is finite and lies in `[min, max]`.
pub open spec fn in_range(value: u64, min: u64, max: u64) -> bool {
    binary64::is_finite(value) && !binary64::lt(value, min) && !binary64::lt(max, value)
}

/// The range rule of a real-valued control holding `value`: whether it
/// holds, and the error reported when it does not.
pub open spec fn range_rule(key: FeelKey, value: u64) -> (bool, FeelConfigError) {
    let (min, max) = key.spec_range().unwrap();
    (
        in_range(value, min, max),
        FeelConfigError::Range { name: key.spec_key_str(), value, min, max },
    )
}

/// The rules a feel configuration must meet, each with the error reported
/// when it is broken, in the order they are checked.
pub open spec fn feel_rules(c: FeelConfig) -> Seq<(bool, FeelConfigError)> {
    seq![
        (c.version == FEEL_CONFIG_VERSION, FeelConfigError::UnsupportedVersion(c.version)),
        range_rule(FeelKey::PointerDeadZoneRadiusMm, c.pointer.dead_zone_radius_mm),
        range_rule(FeelKey::PointerTrackingSpeed, c.pointer.tracking_speed),
        range_rule(FeelKey::PointerMinGain, c.pointer.min_gain),
        range_rule(FeelKey::PointerMaxGain, c.pointer.max_gain),
        (
            !binary64::lt(c.pointer.max_gain, c.pointer.min_gain),
            FeelConfigError::OutOfOrder("pointer.max_gain must be >= pointer.min_gain"),
        ),
        range_rule(FeelKey::ScrollMinGain, c.scroll.min_gain),
        range_rule(FeelKey::ScrollMaxGain, c.scroll.max_gain),
        (
            !binary64::lt(c.scroll.max_gain, c.scroll.min_gain),
            FeelConfigError::OutOfOrder("scroll.max_gain must be >= scroll.min_gain"),
        ),
        range_rule(FeelKey::ScrollAxisLockEngageRatio, c.scroll.axis_lock_engage_ratio),
        range_rule(FeelKey::ScrollAxisLockReleaseRatio, c.scroll.axis_lock_release_ratio),
        (
            !binary64::le(c.scroll.axis_lock_engage_ratio, c.scroll.axis_lock_release_ratio),
            FeelConfigError::OutOfOrder(
                "scroll.axis_lock_release_ratio must be < scroll.axis_lock_engage_ratio",
            ),
        ),
        (
            MOMENTUM_TAU_MIN_MS <= c.scroll.momentum_tau_ms <= MOMENTUM_TAU_MAX_MS,
            FeelConfigError::IntegerRange {
                name: "scroll.momentum_tau_ms",
                value: c.scroll.momentum_tau_ms,
                min: MOMENTUM_TAU_MIN_MS,
                max: MOMENTUM_TAU_MAX_MS,
            },
        ),
        range_rule(FeelKey::ScrollMomentumStartSpeed, c.scroll.momentum_start_speed_mm_per_s),
        range_rule(FeelKey::ScrollMomentumStopSpeed, c.scroll.momentum_stop_speed_mm_per_s),
        (
            !binary64::le(
                c.scroll.momentum_start_speed_mm_per_s,
                c.scroll.momentum_stop_speed_mm_per_s,
            ),
            FeelConfigError::OutOfOrder(
                "scroll.momentum_stop_speed_mm_per_s must be < scroll.momentum_start_speed_mm_per_s",
            ),
        ),
        range_rule(FeelKey::GesturePinchCommitMm, c.gesture.pinch_commit_mm),
        range_rule(FeelKey::GesturePageSwipeCommitMm, c.gesture.page_swipe_commit_mm),
        range_rule(FeelKey::GestureMultiSwipeCommitMm, c.gesture.multi_swipe_commit_mm),
        range_rule(FeelKey::DragCommitThresholdMm, c.drag.commit_threshold_mm),
        (
            !binary64::le(c.gesture.multi_swipe_commit_mm, c.drag.commit_threshold_mm),
            FeelConfigError::OutOfOrder(
                "drag.commit_threshold_mm must stay below gesture.multi_swipe_commit_mm so drag wins ownership first",
            ),
        ),
    ]
}

/// The outcome of validating `c`.
pub open spec fn spec_validate(c: FeelConfig) -> Result<(), FeelConfigError> {
    first_violation(feel_rules(c))
}

/// The range rule of a real-valued control holding `value`.
fn check_range(key: FeelKey, value: u64) -> (r: (bool, FeelConfigError))
    requires
        key.spec_range() is Some,
    ensures
        r == range_rule(key, value),
{
    let (min, max) = match key.range() {
        Some(bounds) => bounds,
        None => (0, 0),
    };
    let holds = binary64::finite(value) && !binary64::less_than(value, min)
        && !binary64::less_than(max, value);
    (holds, FeelConfigError::Range { name: key.name(), value, min, max })
}

impl FeelConfig {
    /// Checks every rule of [`feel_rules`] in order and reports the first
    /// broken one.
    pub fn validate(&self) -> (r: Result<(), FeelConfigError>)
        ensures
            r == spec_validate(*self),
            r is Ok <==> all_hold(feel_rules(*self)),
    {
        let c = *self;
        let rules = vec![
            (c.version == FEEL_CONFIG_VERSION, FeelConfigError::UnsupportedVersion(c.version)),
            check_range(FeelKey::PointerDeadZoneRadiusMm, c.pointer.dead_zone_radius_mm),
            check_range(FeelKey::PointerTrackingSpeed, c.pointer.tracking_speed),
            check_range(FeelKey::PointerMinGain, c.pointer.min_gain),
            check_range(FeelKey::PointerMaxGain, c.pointer.max_gain),
            (
                !binary64::less_than(c.pointer.max_gain, c.pointer.min_gain),
                FeelConfigError::OutOfOrder("pointer.max_gain must be >= pointer.min_gain"),
            ),
            check_range(FeelKey::ScrollMinGain, c.scroll.min_gain),
            check_range(FeelKey::ScrollMaxGain, c.scroll.max_gain),
            (
                !binary64::less_than(c.scroll.max_gain, c.scroll.min_gain),
                FeelConfigError::OutOfOrder("scroll.max_gain must be >= scroll.min_gain"),
            ),
            check_range(FeelKey::ScrollAxisLockEngageRatio, c.scroll.axis_lock_engage_ratio),
            check_range(FeelKey::ScrollAxisLockReleaseRatio, c.scroll.axis_lock_release_ratio),
            (
                !binary64::less_or_equal(
                    c.scroll.axis_lock_engage_ratio,
                    c.scroll.axis_lock_release_ratio,
                ),
                FeelConfigError::OutOfOrder(
                    "scroll.axis_lock_release_ratio must be < scroll.axis_lock_engage_ratio",
                ),
            ),
            (
                MOMENTUM_TAU_MIN_MS <= c.scroll.momentum_tau_ms && c.scroll.momentum_tau_ms
                    <= MOMENTUM_TAU_MAX_MS,
                FeelConfigError::IntegerRange {
                    name: "scroll.momentum_tau_ms",
                    value: c.scroll.momentum_tau_ms,
                    min: MOMENTUM_TAU_MIN_MS,
                    max: MOMENTUM_TAU_MAX_MS,
                },
            ),
            check_range(FeelKey::ScrollMomentumStartSpeed, c.scroll.momentum_start_speed_mm_per_s),
            check_range(FeelKey::ScrollMomentumStopSpeed, c.scroll.momentum_stop_speed_mm_per_s),
            (
                !binary64::less_or_equal(
                    c.scroll.momentum_start_speed_mm_per_s,
                    c.scroll.momentum_stop_speed_mm_per_s,
                ),
                FeelConfigError::OutOfOrder(
                    "scroll.momentum_stop_speed_mm_per_s must be < scroll.momentum_start_speed_mm_per_s",
                ),
            ),
            check_range(FeelKey::GesturePinchCommitMm, c.gesture.pinch_commit_mm),
            check_range(FeelKey::GesturePageSwipeCommitMm, c.gesture.page_swipe_commit_mm),
            check_range(FeelKey::GestureMultiSwipeCommitMm, c.gesture.multi_swipe_commit_mm),
            check_range(FeelKey::DragCommitThresholdMm, c.drag.commit_threshold_mm),
            (
                !binary64::less_or_equal(c.gesture.multi_swipe_commit_mm, c.drag.commit_threshold_mm),
                FeelConfigError::OutOfOrder(
                    "drag.commit_threshold_mm must stay below gesture.multi_swipe_commit_mm so drag wins ownership first",
                ),
            ),
        ];
        proof {
            assert(rules@ =~= feel_rules(c));
            lemma_first_violation(feel_rules(c));
        }
        first_violation_of(rules)
    }
}


/// The number a text denotes under the grammar of `str::parse::<u64>`:
/// its decimal digits read most significant first.
pub open spec fn decimal_value(digits: Seq<char>) -> int
    decreases digits.len(),
{
    if digits.len() == 0 {
        0
    } else {
        decimal_value(digits.drop_last()) * 10 + (digits.last() as int - '0' as int)
    }
}

/// Whether a text is a non-empty run of ASCII decimal digits.
pub open spec fn all_decimal_digits(digits: Seq<char>) -> bool {
    digits.len() > 0 && forall|i: int| 0 <= i < digits.len() ==> '0' <= #[trigger] digits[i] <= '9'
}

/// What `str::parse::<u64>` yields: an optional `+` followed by decimal
/// digits whose value fits in a `u64`; anything else is rejected.
pub open spec fn spec_parse_u64(text: Seq<char>) -> Option<u64> {
    let digits = if text.len() > 0 && text[0] == '+' {
        text.drop_first()
    } else {
        text
    };
    if all_decimal_digits(digits) && decimal_value(digits) <= u64::MAX {
        Some(decimal_value(digits) as u64)
    } else {
        None
    }
}

/// What `str::parse::<bool>` yields: `true` and `false` only.
pub open spec fn spec_parse_bool(text: Seq<char>) -> Option<bool> {
    if text == "true"@ {
        Some(true)
    } else if text == "false"@ {
        Some(false)
    } else {
        None
    }
}

/// Calls `str::parse::<u64>`, which accepts an optional `+` followed by
/// decimal digits and rejects values beyond `u64::MAX`; claims exactly
/// [`spec_parse_u64`].
#[verifier::external_body]
fn parse_u64(text: &str) -> (r: Option<u64>)
    ensures
        r == spec_parse_u64(text@),
{
    text.parse::<u64>().ok()
}

/// Calls `str::parse::<bool>`, which accepts exactly `"true"` and
/// `"false"`; claims exactly [`spec_parse_bool`].
#[verifier::external_body]
fn parse_bool(text: &str) -> (r: Option<bool>)
    ensures
        r == spec_parse_bool(text@),
{
    text.parse::<bool>().ok()
}

/// The value that `text` gives the control `key`. A real-valued control
/// takes `decimal`, the binary64 pattern of `text` read as a number
/// (`None` when it is no number).
pub open spec fn spec_read_value(key: FeelKey, text: Seq<char>, decimal: Option<u64>) -> Option<
    FeelValue,
> {
    match key.spec_kind() {
        FeelValueKind::Number => match decimal {
            Some(bits) => Some(FeelValue::Number(bits)),
            None => None,
        },
        FeelValueKind::Integer => match spec_parse_u64(text) {
            Some(n) => Some(FeelValue::Integer(n)),
            None => None,
        },
        FeelValueKind::Flag => match spec_parse_bool(text) {
            Some(b) => Some(FeelValue::Flag(b)),
            None => None,
        },
    }
}

fn read_value(key: FeelKey, text: &str, decimal: Option<u64>) -> (r: Option<FeelValue>)
    ensures
        r == spec_read_value(key, text@, decimal),
{
    match key.kind() {
        FeelValueKind::Number => match decimal {
            Some(bits) => Some(FeelValue::Number(bits)),
            None => None,
        },
        FeelValueKind::Integer => match parse_u64(text) {
            Some(n) => Some(FeelValue::Integer(n)),
            None => None,
        },
        FeelValueKind::Flag => match parse_bool(text) {
            Some(b) => Some(FeelValue::Flag(b)),
            None => None,
        },
    }
}

impl FeelConfig {
    /// The shipped defaults.
    pub open spec fn spec_default() -> FeelConfig {
        FeelConfig {
            version: FEEL_CONFIG_VERSION,
            pointer: PointerFeel {
                dead_zone_radius_mm: BITS_0_09,
                tracking_speed: BITS_1,
                min_gain: BITS_1,
                max_gain: BITS_2,
            },
            scroll: ScrollFeel {
                min_gain: BITS_1,
                max_gain: BITS_1_75,
                axis_lock_engage_ratio: BITS_2_5,
                axis_lock_release_ratio: BITS_1_5,
                momentum_tau_ms: 325,
                momentum_start_speed_mm_per_s: BITS_35,
                momentum_stop_speed_mm_per_s: BITS_6,
            },
            gesture: GestureFeel {
                pinch_commit_mm: BITS_0_8,
                page_swipe_commit_mm: BITS_0_8,
                multi_swipe_commit_mm: BITS_2,
            },
            drag: DragFeel { commit_threshold_mm: BITS_1, drag_lock: true },
        }
    }

    /// The configuration with the control `key` set to `value`. A value of
    /// another kind than the key's changes nothing.
    pub open spec fn spec_with(self, key: FeelKey, value: FeelValue) -> FeelConfig {
        let p = self.pointer;
        let s = self.scroll;
        let g = self.gesture;
        let d = self.drag;
        match (key, value) {
            (FeelKey::PointerDeadZoneRadiusMm, FeelValue::Number(b)) => FeelConfig {
                pointer: PointerFeel { dead_zone_radius_mm: b, ..p },
                ..self
            },
            (FeelKey::PointerTrackingSpeed, FeelValue::Number(b)) => FeelConfig {
                pointer: PointerFeel { tracking_speed: b, ..p },
                ..self
            },
            (FeelKey::PointerMinGain, FeelValue::Number(b)) => FeelConfig {
                pointer: PointerFeel { min_gain: b, ..p },
                ..self
            },
            (FeelKey::PointerMaxGain, FeelValue::Number(b)) => FeelConfig {
                pointer: PointerFeel { max_gain: b, ..p },
                ..self
            },
            (FeelKey::ScrollMinGain, FeelValue::Number(b)) => FeelConfig {
                scroll: ScrollFeel { min_gain: b, ..s },
                ..self
            },
            (FeelKey::ScrollMaxGain, FeelValue::Number(b)) => FeelConfig {
                scroll: ScrollFeel { max_gain: b, ..s },
                ..self
            },
            (FeelKey::ScrollAxisLockEngageRatio, FeelValue::Number(b)) => FeelConfig {
                scroll: ScrollFeel { axis_lock_engage_ratio: b, ..s },
                ..self
            },
            (FeelKey::ScrollAxisLockReleaseRatio, FeelValue::Number(b)) => FeelConfig {
                scroll: ScrollFeel { axis_lock_release_ratio: b, ..s },
                ..self
            },
            (FeelKey::ScrollMomentumTauMs, FeelValue::Integer(n)) => FeelConfig {
                scroll: ScrollFeel { momentum_tau_ms: n, ..s },
                ..self
            },
            (FeelKey::ScrollMomentumStartSpeed, FeelValue::Number(b)) => FeelConfig {
                scroll: ScrollFeel { momentum_start_speed_mm_per_s: b, ..s },
                ..self
            },
            (FeelKey::ScrollMomentumStopSpeed, FeelValue::Number(b)) => FeelConfig {
                scroll: ScrollFeel { momentum_stop_speed_mm_per_s: b, ..s },
                ..self
            },
            (FeelKey::GesturePinchCommitMm, FeelValue::Number(b)) => FeelConfig {
                gesture: GestureFeel { pinch_commit_mm: b, ..g },
                ..self
            },
            (FeelKey::GesturePageSwipeCommitMm, FeelValue::Number(b)) => FeelConfig {
                gesture: GestureFeel { page_swipe_commit_mm: b, ..g },
                ..self
            },
            (FeelKey::GestureMultiSwipeCommitMm, FeelValue::Number(b)) => FeelConfig {
                gesture: GestureFeel { multi_swipe_commit_mm: b, ..g },
                ..self
            },
            (FeelKey::DragCommitThresholdMm, FeelValue::Number(b)) => FeelConfig {
                drag: DragFeel { commit_threshold_mm: b, ..d },
                ..self
            },
            (FeelKey::DragLock, FeelValue::Flag(f)) => FeelConfig {
                drag: DragFeel { drag_lock: f, ..d },
                ..self
            },
            _ => self,
        }
    }

    fn with_value(&self, key: FeelKey, value: FeelValue) -> (r: FeelConfig)
        ensures
            r == self.spec_with(key, value),
    {
        let mut c = *self;
        match (key, value) {
            (FeelKey::PointerDeadZoneRadiusMm, FeelValue::Number(b)) => {
                c.pointer.dead_zone_radius_mm = b;
            },
            (FeelKey::PointerTrackingSpeed, FeelValue::Number(b)) => {
                c.pointer.tracking_speed = b;
            },
            (FeelKey::PointerMinGain, FeelValue::Number(b)) => {
                c.pointer.min_gain = b;
            },
            (FeelKey::PointerMaxGain, FeelValue::Number(b)) => {
                c.pointer.max_gain = b;
            },
            (FeelKey::ScrollMinGain, FeelValue::Number(b)) => {
                c.scroll.min_gain = b;
            },
            (FeelKey::ScrollMaxGain, FeelValue::Number(b)) => {
                c.scroll.max_gain = b;
            },
            (FeelKey::ScrollAxisLockEngageRatio, FeelValue::Number(b)) => {
                c.scroll.axis_lock_engage_ratio = b;
            },
            (FeelKey::ScrollAxisLockReleaseRatio, FeelValue::Number(b)) => {
                c.scroll.axis_lock_release_ratio = b;
            },
            (FeelKey::ScrollMomentumTauMs, FeelValue::Integer(n)) => {
                c.scroll.momentum_tau_ms = n;
            },
            (FeelKey::ScrollMomentumStartSpeed, FeelValue::Number(b)) => {
                c.scroll.momentum_start_speed_mm_per_s = b;
            },
            (FeelKey::ScrollMomentumStopSpeed, FeelValue::Number(b)) => {
                c.scroll.momentum_stop_speed_mm_per_s = b;
            },
            (FeelKey::GesturePinchCommitMm, FeelValue::Number(b)) => {
                c.gesture.pinch_commit_mm = b;
            },
            (FeelKey::GesturePageSwipeCommitMm, FeelValue::Number(b)) => {
                c.gesture.page_swipe_commit_mm = b;
            },
            (FeelKey::GestureMultiSwipeCommitMm, FeelValue::Number(b)) => {
                c.gesture.multi_swipe_commit_mm = b;
            },
            (FeelKey::DragCommitThresholdMm, FeelValue::Number(b)) => {
                c.drag.commit_threshold_mm = b;
            },
            (FeelKey::DragLock, FeelValue::Flag(f)) => {
                c.drag.drag_lock = f;
            },
            _ => {},
        }
        c
    }

    /// Sets one control and keeps the change only if the result validates;
    /// otherwise the configuration stays as it was. A value of another kind
    /// than the key's changes nothing.
    pub fn assign(&mut self, key: FeelKey, value: FeelValue) -> (r: Result<(), FeelConfigError>)
        ensures
            r == spec_validate(old(self).spec_with(key, value)),
            r is Ok ==> *final(self) == old(self).spec_with(key, value),
            r is Err ==> *final(self) == *old(self),
    {
        let candidate = self.with_value(key, value);
        let r = candidate.validate();
        if r.is_ok() {
            *self = candidate;
        }
        r
    }

    /// Edits the control named `key` from the text `value`, atomically:
    /// an unknown key, an unreadable value, or a result that fails
    /// [`FeelConfig::validate`] leaves the configuration unchanged.
    /// `decimal` is `value` read as a real number (its binary64 pattern),
    /// `None` when `value` is no number; only real-valued controls use it.
    pub fn set_key(&mut self, key: &str, value: &str, decimal: Option<u64>) -> (r: Result<
        (),
        FeelConfigError,
    >)
        ensures
            (match FeelKey::spec_from_name(key@) {
                None => r matches Err(FeelConfigError::UnknownKey(k)) && k@ == key@,
                Some(k) => match spec_read_value(k, value@, decimal) {
                    None => if k.spec_kind() == FeelValueKind::Number {
                        r matches Err(FeelConfigError::InvalidNumber(t)) && t@ == value@
                    } else {
                        r matches Err(FeelConfigError::InvalidValue { key: a, value: t }) && a@
                            == key@ && t@ == value@
                    },
                    Some(v) => r == spec_validate(old(self).spec_with(k, v))
                        && (r is Ok ==> *final(self) == old(self).spec_with(k, v)),
                },
            }),
            r is Err ==> *final(self) == *old(self),
            r is Ok ==> spec_validate(*final(self)) is Ok,
    {
        let k = match FeelKey::from_name(key) {
            Some(k) => k,
            None => {
                return Err(FeelConfigError::UnknownKey(key.to_owned()));
            },
        };
        let v = match read_value(k, value, decimal) {
            Some(v) => v,
            None => {
                if k.kind() == FeelValueKind::Number {
                    return Err(FeelConfigError::InvalidNumber(value.to_owned()));
                } else {
                    return Err(
                        FeelConfigError::InvalidValue { key: key.to_owned(), value: value.to_owned() },
                    );
                }
            },
        };
        self.assign(k, v)
    }
}

impl Default for FeelConfig {
    fn default() -> (r: FeelConfig)
        ensures
            r == FeelConfig::spec_default(),
    {
        FeelConfig {
            version: FEEL_CONFIG_VERSION,
            pointer: PointerFeel {
                dead_zone_radius_mm: BITS_0_09,
                tracking_speed: BITS_1,
                min_gain: BITS_1,
                max_gain: BITS_2,
            },
            scroll: ScrollFeel {
                min_gain: BITS_1,
                max_gain: BITS_1_75,
                axis_lock_engage_ratio: BITS_2_5,
                axis_lock_release_ratio: BITS_1_5,
                momentum_tau_ms: 325,
                momentum_start_speed_mm_per_s: BITS_35,
                momentum_stop_speed_mm_per_s: BITS_6,
            },
            gesture: GestureFeel {
                pinch_commit_mm: BITS_0_8,
                page_swipe_commit_mm: BITS_0_8,
                multi_swipe_commit_mm: BITS_2,
            },
            drag: DragFeel { commit_threshold_mm: BITS_1, drag_lock: true },
        }
    }
}

/// The shipped defaults pass validation.
pub proof fn lemma_default_feel_is_valid()
    ensures
        spec_validate(FeelConfig::spec_default()) is Ok,
{
    let c = FeelConfig::spec_default();
    lemma_first_violation(feel_rules(c));
    assert forall|i: int| 0 <= i < feel_rules(c).len() implies #[trigger] feel_rules(c)[i].0 by {
    }
}

/// Describes one editable control for tuning front ends. Bounds and step
/// are binary64 patterns; the boolean control has none.
#[derive(Clone, Copy, Debug, PartialEq)]
pub struct FeelParameterSpec {
    pub key: &'static str,
    pub group: &'static str,
    pub unit: &'static str,
    pub min: Option<u64>,
    pub max: Option<u64>,
    pub step: Option<u64>,
    pub effect: &'static str,
}

/// The control descriptions, one per key, in the order of
/// [`spec_all_feel_keys`].
pub open spec fn spec_feel_parameter_specs() -> Seq<FeelParameterSpec> {
    seq![
        FeelParameterSpec {
            key: "pointer.dead_zone_radius_mm",
            group: "Pointer",
            unit: "mm",
            min: Some(BITS_0_01),
            max: Some(BITS_0_3),
            step: Some(BITS_0_01),
            effect: "Higher filters more tiny hand jitter; too high feels sticky.",
        },
        FeelParameterSpec {
            key: "pointer.tracking_speed",
            group: "Pointer",
            unit: "x",
            min: Some(BITS_0_25),
            max: Some(BITS_4),
            step: Some(BITS_0_05),
            effect: "Global pointer travel multiplier.",
        },
        FeelParameterSpec {
            key: "pointer.min_gain",
            group: "Pointer",
            unit: "x",
            min: Some(BITS_0_5),
            max: Some(BITS_2),
            step: Some(BITS_0_05),
            effect: "Slow precision-motion gain.",
        },
        FeelParameterSpec {
            key: "pointer.max_gain",
            group: "Pointer",
            unit: "x",
            min: Some(BITS_0_5),
            max: Some(BITS_4),
            step: Some(BITS_0_05),
            effect: "Fast-motion acceleration ceiling.",
        },
        FeelParameterSpec {
            key: "scroll.min_gain",
            group: "Scroll",
            unit: "x",
            min: Some(BITS_0_5),
            max: Some(BITS_2),
            step: Some(BITS_0_05),
            effect: "Slow scroll sensitivity.",
        },
        FeelParameterSpec {
            key: "scroll.max_gain",
            group: "Scroll",
            unit: "x",
            min: Some(BITS_0_5),
            max: Some(BITS_4),
            step: Some(BITS_0_05),
            effect: "Fast scroll sensitivity ceiling.",
        },
        FeelParameterSpec {
            key: "scroll.axis_lock_engage_ratio",
            group: "Scroll",
            unit: "ratio",
            min: Some(BITS_1_2),
            max: Some(BITS_6),
            step: Some(BITS_0_1),
            effect: "Higher requires a cleaner dominant direction before locking.",
        },
        FeelParameterSpec {
            key: "scroll.axis_lock_release_ratio",
            group: "Scroll",
            unit: "ratio",
            min: Some(BITS_1_05),
            max: Some(BITS_4),
            step: Some(BITS_0_05),
            effect: "Controls how readily an existing axis lock releases.",
        },
        FeelParameterSpec {
            key: "scroll.momentum_tau_ms",
            group: "Scroll",
            unit: "ms",
            min: Some(BITS_50),
            max: Some(BITS_1200),
            step: Some(BITS_25),
            effect: "Higher makes inertial scrolling coast longer.",
        },
        FeelParameterSpec {
            key: "scroll.momentum_start_speed_mm_per_s",
            group: "Scroll",
            unit: "mm/s",
            min: Some(BITS_10),
            max: Some(BITS_200),
            step: Some(BITS_5),
            effect: "Higher requires a faster release to start momentum.",
        },
        FeelParameterSpec {
            key: "scroll.momentum_stop_speed_mm_per_s",
            group: "Scroll",
            unit: "mm/s",
            min: Some(BITS_1),
            max: Some(BITS_50),
            step: Some(BITS_1),
            effect: "Higher cuts momentum off earlier.",
        },
        FeelParameterSpec {
            key: "gesture.pinch_commit_mm",
            group: "Gestures",
            unit: "mm",
            min: Some(BITS_0_2),
            max: Some(BITS_3),
            step: Some(BITS_0_1),
            effect: "Lower makes pinch/zoom commit sooner.",
        },
        FeelParameterSpec {
            key: "gesture.page_swipe_commit_mm",
            group: "Gestures",
            unit: "mm",
            min: Some(BITS_0_3),
            max: Some(BITS_5),
            step: Some(BITS_0_1),
            effect: "Lower makes two-finger page swipe commit sooner.",
        },
        FeelParameterSpec {
            key: "gesture.multi_swipe_commit_mm",
            group: "Gestures",
            unit: "mm",
            min: Some(BITS_1),
            max: Some(BITS_8),
            step: Some(BITS_0_1),
            effect: "Lower makes 3/4-finger swipes commit sooner.",
        },
        FeelParameterSpec {
            key: "drag.commit_threshold_mm",
            group: "Three-finger drag",
            unit: "mm",
            min: Some(BITS_0_6),
            max: Some(BITS_4),
            step: Some(BITS_0_1),
            effect: "Lower makes three-finger drag grab sooner; must remain below multi-swipe threshold.",
        },
        FeelParameterSpec {
            key: "drag.drag_lock",
            group: "Three-finger drag",
            unit: "bool",
            min: None,
            max: None,
            step: None,
            effect: "Keep the drag held after lifting three fingers until a release tap.",
        },
    ]
}

/// The control descriptions, one per key.
pub fn feel_parameter_specs() -> (r: Vec<FeelParameterSpec>)
    ensures
        r@ == spec_feel_parameter_specs(),
{
    let r = vec![
        FeelParameterSpec {
            key: "pointer.dead_zone_radius_mm",
            group: "Pointer",
            unit: "mm",
            min: Some(BITS_0_01),
            max: Some(BITS_0_3),
            step: Some(BITS_0_01),
            effect: "Higher filters more tiny hand jitter; too high feels sticky.",
        },
        FeelParameterSpec {
            key: "pointer.tracking_speed",
            group: "Pointer",
            unit: "x",
            min: Some(BITS_0_25),
            max: Some(BITS_4),
            step: Some(BITS_0_05),
            effect: "Global pointer travel multiplier.",
        },
        FeelParameterSpec {
            key: "pointer.min_gain",
            group: "Pointer",
            unit: "x",
            min: Some(BITS_0_5),
            max: Some(BITS_2),
            step: Some(BITS_0_05),
            effect: "Slow precision-motion gain.",
        },
        FeelParameterSpec {
            key: "pointer.max_gain",
            group: "Pointer",
            unit: "x",
            min: Some(BITS_0_5),
            max: Some(BITS_4),
            step: Some(BITS_0_05),
            effect: "Fast-motion acceleration ceiling.",
        },
        FeelParameterSpec {
            key: "scroll.min_gain",
            group: "Scroll",
            unit: "x",
            min: Some(BITS_0_5),
            max: Some(BITS_2),
            step: Some(BITS_0_05),
            effect: "Slow scroll sensitivity.",
        },
        FeelParameterSpec {
            key: "scroll.max_gain",
            group: "Scroll",
            unit: "x",
            min: Some(BITS_0_5),
            max: Some(BITS_4),
            step: Some(BITS_0_05),
            effect: "Fast scroll sensitivity ceiling.",
        },
        FeelParameterSpec {
            key: "scroll.axis_lock_engage_ratio",
            group: "Scroll",
            unit: "ratio",
            min: Some(BITS_1_2),
            max: Some(BITS_6),
            step: Some(BITS_0_1),
            effect: "Higher requires a cleaner dominant direction before locking.",
        },
        FeelParameterSpec {
            key: "scroll.axis_lock_release_ratio",
            group: "Scroll",
            unit: "ratio",
            min: Some(BITS_1_05),
            max: Some(BITS_4),
            step: Some(BITS_0_05),
            effect: "Controls how readily an existing axis lock releases.",
        },
        FeelParameterSpec {
            key: "scroll.momentum_tau_ms",
            group: "Scroll",
            unit: "ms",
            min: Some(BITS_50),
            max: Some(BITS_1200),
            step: Some(BITS_25),
            effect: "Higher makes inertial scrolling coast longer.",
        },
        FeelParameterSpec {
            key: "scroll.momentum_start_speed_mm_per_s",
            group: "Scroll",
            unit: "mm/s",
            min: Some(BITS_10),
            max: Some(BITS_200),
            step: Some(BITS_5),
            effect: "Higher requires a faster release to start momentum.",
        },
        FeelParameterSpec {
            key: "scroll.momentum_stop_speed_mm_per_s",
            group: "Scroll",
            unit: "mm/s",
            min: Some(BITS_1),
            max: Some(BITS_50),
            step: Some(BITS_1),
            effect: "Higher cuts momentum off earlier.",
        },
        FeelParameterSpec {
            key: "gesture.pinch_commit_mm",
            group: "Gestures",
            unit: "mm",
            min: Some(BITS_0_2),
            max: Some(BITS_3),
            step: Some(BITS_0_1),
            effect: "Lower makes pinch/zoom commit sooner.",
        },
        FeelParameterSpec {
            key: "gesture.page_swipe_commit_mm",
            group: "Gestures",
            unit: "mm",
            min: Some(BITS_0_3),
            max: Some(BITS_5),
            step: Some(BITS_0_1),
            effect: "Lower makes two-finger page swipe commit sooner.",
        },
        FeelParameterSpec {
            key: "gesture.multi_swipe_commit_mm",
            group: "Gestures",
            unit: "mm",
            min: Some(BITS_1),
            max: Some(BITS_8),
            step: Some(BITS_0_1),
            effect: "Lower makes 3/4-finger swipes commit sooner.",
        },
        FeelParameterSpec {
            key: "drag.commit_threshold_mm",
            group: "Three-finger drag",
            unit: "mm",
            min: Some(BITS_0_6),
            max: Some(BITS_4),
            step: Some(BITS_0_1),
            effect: "Lower makes three-finger drag grab sooner; must remain below multi-swipe threshold.",
        },
        FeelParameterSpec {
            key: "drag.drag_lock",
            group: "Three-finger drag",
            unit: "bool",
            min: None,
            max: None,
            step: None,
            effect: "Keep the drag held after lifting three fingers until a release tap.",
        },
    ];
    assert(r@ =~= spec_feel_parameter_specs());
    r
}

/// Every key's text is recognised as that key.
pub proof fn lemma_key_names_round_trip(key: FeelKey)
    ensures
        FeelKey::spec_from_name(key.spec_key_str()@) == Some(key),
{
    reveal_strlit("pointer.dead_zone_radius_mm");
    reveal_strlit("pointer.tracking_speed");
    reveal_strlit("pointer.min_gain");
    reveal_strlit("pointer.max_gain");
    reveal_strlit("scroll.min_gain");
    reveal_strlit("scroll.max_gain");
    reveal_strlit("scroll.axis_lock_engage_ratio");
    reveal_strlit("scroll.axis_lock_release_ratio");
    reveal_strlit("scroll.momentum_tau_ms");
    reveal_strlit("scroll.momentum_start_speed_mm_per_s");
    reveal_strlit("scroll.momentum_stop_speed_mm_per_s");
    reveal_strlit("gesture.pinch_commit_mm");
    reveal_strlit("gesture.page_swipe_commit_mm");
    reveal_strlit("gesture.multi_swipe_commit_mm");
    reveal_strlit("drag.commit_threshold_mm");
    reveal_strlit("drag.drag_lock");
    assert("pointer.tracking_speed"@[0] != "scroll.momentum_tau_ms"@[0]);
    assert("pointer.min_gain"@[9] != "pointer.max_gain"@[9]);
    assert("scroll.min_gain"@[8] != "scroll.max_gain"@[8]);
    assert("scroll.axis_lock_engage_ratio"@[0] != "gesture.multi_swipe_commit_mm"@[0]);
    assert("pointer.dead_zone_radius_mm"@.len() == 27);
    assert("pointer.tracking_speed"@.len() == 22);
    assert("pointer.min_gain"@.len() == 16);
    assert("pointer.max_gain"@.len() == 16);
    assert("scroll.min_gain"@.len() == 15);
    assert("scroll.max_gain"@.len() == 15);
    assert("scroll.axis_lock_engage_ratio"@.len() == 29);
    assert("scroll.axis_lock_release_ratio"@.len() == 30);
    assert("scroll.momentum_tau_ms"@.len() == 22);
    assert("scroll.momentum_start_speed_mm_per_s"@.len() == 36);
    assert("scroll.momentum_stop_speed_mm_per_s"@.len() == 35);
    assert("gesture.pinch_commit_mm"@.len() == 23);
    assert("gesture.page_swipe_commit_mm"@.len() == 28);
    assert("gesture.multi_swipe_commit_mm"@.len() == 29);
    assert("drag.commit_threshold_mm"@.len() == 24);
    assert("drag.drag_lock"@.len() == 14);
}

/// The description table lists every key once, in order, and for each
/// real-valued control gives exactly the range that validation enforces;
/// the boolean control has no bounds.
pub proof fn lemma_parameter_specs_match_validation()
    ensures
        spec_feel_parameter_specs().len() == spec_all_feel_keys().len(),
        forall|i: int|
            0 <= i < spec_feel_parameter_specs().len() ==> {
                let d = #[trigger] spec_feel_parameter_specs()[i];
                let k = spec_all_feel_keys()[i];
                &&& d.key == k.spec_key_str()
                &&& FeelKey::spec_from_name(d.key@) == Some(k)
                &&& k.spec_kind() == FeelValueKind::Number ==> d.min == Some(k.spec_range().unwrap().0)
                    && d.max == Some(k.spec_range().unwrap().1)
                &&& k.spec_kind() == FeelValueKind::Flag ==> d.min is None && d.max is None
                    && d.step is None
            },
{
    assert forall|i: int| 0 <= i < spec_feel_parameter_specs().len() implies {
        let d = #[trigger] spec_feel_parameter_specs()[i];
        let k = spec_all_feel_keys()[i];
        &&& d.key == k.spec_key_str()
        &&& FeelKey::spec_from_name(d.key@) == Some(k)
        &&& k.spec_kind() == FeelValueKind::Number ==> d.min == Some(k.spec_range().unwrap().0)
            && d.max == Some(k.spec_range().unwrap().1)
        &&& k.spec_kind() == FeelValueKind::Flag ==> d.min is None && d.max is None && d.step is None
    } by {
        lemma_key_names_round_trip(spec_all_feel_keys()[i]);
    }
}

impl FeelConfig {
    /// The value stored in the field the control `key` names.
    pub open spec fn spec_value_of(self, key: FeelKey) -> FeelValue {
        match key {
            FeelKey::PointerDeadZoneRadiusMm => FeelValue::Number(self.pointer.dead_zone_radius_mm),
            FeelKey::PointerTrackingSpeed => FeelValue::Number(self.pointer.tracking_speed),
            FeelKey::PointerMinGain => FeelValue::Number(self.pointer.min_gain),
            FeelKey::PointerMaxGain => FeelValue::Number(self.pointer.max_gain),
            FeelKey::ScrollMinGain => FeelValue::Number(self.scroll.min_gain),
            FeelKey::ScrollMaxGain => FeelValue::Number(self.scroll.max_gain),
            FeelKey::ScrollAxisLockEngageRatio => FeelValue::Number(self.scroll.axis_lock_engage_ratio),
            FeelKey::ScrollAxisLockReleaseRatio => FeelValue::Number(self.scroll.axis_lock_release_ratio),
            FeelKey::ScrollMomentumTauMs => FeelValue::Integer(self.scroll.momentum_tau_ms),
            FeelKey::ScrollMomentumStartSpeed => FeelValue::Number(
                self.scroll.momentum_start_speed_mm_per_s,
            ),
            FeelKey::ScrollMomentumStopSpeed => FeelValue::Number(
                self.scroll.momentum_stop_speed_mm_per_s,
            ),
            FeelKey::GesturePinchCommitMm => FeelValue::Number(self.gesture.pinch_commit_mm),
            FeelKey::GesturePageSwipeCommitMm => FeelValue::Number(self.gesture.page_swipe_commit_mm),
            FeelKey::GestureMultiSwipeCommitMm => FeelValue::Number(self.gesture.multi_swipe_commit_mm),
            FeelKey::DragCommitThresholdMm => FeelValue::Number(self.drag.commit_threshold_mm),
            FeelKey::DragLock => FeelValue::Flag(self.drag.drag_lock),
        }
    }
}

/// Every field of a feel configuration is the version or the field of one
/// control: two configurations with the same version and the same value for
/// every control are equal.
pub proof fn lemma_feel_config_is_its_controls(a: FeelConfig, b: FeelConfig)
    requires
        a.version == b.version,
        forall|k: FeelKey| #[trigger] a.spec_value_of(k) == b.spec_value_of(k),
    ensures
        a == b,
{
    assert(a.spec_value_of(FeelKey::PointerDeadZoneRadiusMm) == b.spec_value_of(FeelKey::PointerDeadZoneRadiusMm));
    assert(a.spec_value_of(FeelKey::PointerTrackingSpeed) == b.spec_value_of(FeelKey::PointerTrackingSpeed));
    assert(a.spec_value_of(FeelKey::PointerMinGain) == b.spec_value_of(FeelKey::PointerMinGain));
    assert(a.spec_value_of(FeelKey::PointerMaxGain) == b.spec_value_of(FeelKey::PointerMaxGain));
    assert(a.spec_value_of(FeelKey::ScrollMinGain) == b.spec_value_of(FeelKey::ScrollMinGain));
    assert(a.spec_value_of(FeelKey::ScrollMaxGain) == b.spec_value_of(FeelKey::ScrollMaxGain));
    assert(a.spec_value_of(FeelKey::ScrollAxisLockEngageRatio) == b.spec_value_of(FeelKey::ScrollAxisLockEngageRatio));
    assert(a.spec_value_of(FeelKey::ScrollAxisLockReleaseRatio) == b.spec_value_of(FeelKey::ScrollAxisLockReleaseRatio));
    assert(a.spec_value_of(FeelKey::ScrollMomentumTauMs) == b.spec_value_of(FeelKey::ScrollMomentumTauMs));
    assert(a.spec_value_of(FeelKey::ScrollMomentumStartSpeed) == b.spec_value_of(FeelKey::ScrollMomentumStartSpeed));
    assert(a.spec_value_of(FeelKey::ScrollMomentumStopSpeed) == b.spec_value_of(FeelKey::ScrollMomentumStopSpeed));
    assert(a.spec_value_of(FeelKey::GesturePinchCommitMm) == b.spec_value_of(FeelKey::GesturePinchCommitMm));
    assert(a.spec_value_of(FeelKey::GesturePageSwipeCommitMm) == b.spec_value_of(FeelKey::GesturePageSwipeCommitMm));
    assert(a.spec_value_of(FeelKey::GestureMultiSwipeCommitMm) == b.spec_value_of(FeelKey::GestureMultiSwipeCommitMm));
    assert(a.spec_value_of(FeelKey::DragCommitThresholdMm) == b.spec_value_of(FeelKey::DragCommitThresholdMm));
    assert(a.spec_value_of(FeelKey::DragLock) == b.spec_value_of(FeelKey::DragLock));
}

/// Setting a control changes exactly the field its key names: that control
/// then holds the value, the version and every other control keep theirs.
/// A value of another kind than the key's changes nothing.
pub proof fn lemma_edit_changes_only_its_control(c: FeelConfig, key: FeelKey, value: FeelValue)
    ensures
        value.spec_kind() == key.spec_kind() ==> c.spec_with(key, value).spec_value_of(key) == value,
        c.spec_with(key, value).version == c.version,
        forall|other: FeelKey|
            other != key ==> #[trigger] c.spec_with(key, value).spec_value_of(other) == c.spec_value_of(
                other,
            ),
        value.spec_kind() != key.spec_kind() ==> c.spec_with(key, value) == c,
{
}

/// An accepted edit by key text stores the value in the control whose key
/// text it is and leaves every other control as it was.
pub proof fn lemma_set_key_edits_named_control(c: FeelConfig, name: Seq<char>, key: FeelKey, value: FeelValue)
    requires
        FeelKey::spec_from_name(name) == Some(key),
        value.spec_kind() == key.spec_kind(),
    ensures
        key.spec_key_str()@ == name,
        c.spec_with(key, value).spec_value_of(key) == value,
        forall|other: FeelKey|
            other != key ==> #[trigger] c.spec_with(key, value).spec_value_of(other) == c.spec_value_of(
                other,
            ),
{
    lemma_key_names_round_trip(key);
    lemma_edit_changes_only_its_control(c, key, value);
}

} // verus!
