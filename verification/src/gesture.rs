//! Configuration and output of the continuous gesture recognizer.
//!
//! [`GestureConfig`] holds the recognizer's commit thresholds (binary64
//! patterns, see [`binary64`]); every value of it is valid: all thresholds
//! finite and strictly positive, the page-swipe dominance above one, and a
//! touch surface, when known, larger than both edge zones together.

use crate::binary64;
use crate::binary64::{double_non_negative, finite_positive, positive, BITS_1};
use crate::output::ContinuousGestureEvent;
use crate::rules::{all_hold, first_violation, first_violation_of, lemma_first_violation};
use vstd::prelude::*;

verus! {

/// What one recognizer step produced: the gesture events, and whether the
/// recognized gesture owns the contacts so that the ordinary pointer and
/// scroll policy must stay out.
#[derive(Clone, Debug, PartialEq)]
pub struct GestureDecision {
    pub events: Vec<ContinuousGestureEvent>,
    pub blocks_contact_policy: bool,
}

/// Why a gesture configuration is rejected. Values are binary64 patterns.
#[derive(Clone, Copy, Debug, PartialEq, Eq)]
pub enum GestureConfigError {
    /// A threshold is not finite or not strictly positive.
    NonPositiveOrNonFinite { name: &'static str, value: u64 },
    /// Two thresholds are in an impossible relation; the text says which.
    InvalidOrdering(&'static str),
    /// The touch-surface size is not finite or leaves no room between the
    /// edge zones.
    InvalidSurface,
}

/// The contents of a [`GestureConfig`].
pub struct GestureConfigView {
    pub pinch_commit_mm: u64,
    pub rotate_commit_radians: u64,
    pub page_swipe_commit_mm: u64,
    pub page_swipe_dominance: u64,
    pub scroll_translation_win_mm: u64,
    pub multi_swipe_commit_mm: u64,
    pub edge_commit_mm: u64,
    pub edge_zone_mm: u64,
    pub surface_size_mm: Option<(u64, u64)>,
}

/// The positivity rule of one threshold.
pub open spec fn positive_rule(name: &'static str, value: u64) -> (bool, GestureConfigError) {
    (finite_positive(value), GestureConfigError::NonPositiveOrNonFinite { name, value })
}

/// The rules the thresholds must meet, each with the error reported when it
/// is broken, in the order they are checked.
pub open spec fn gesture_rules(v: GestureConfigView) -> Seq<(bool, GestureConfigError)> {
    seq![
        positive_rule("pinch_commit_mm", v.pinch_commit_mm),
        positive_rule("rotate_commit_radians", v.rotate_commit_radians),
        positive_rule("page_swipe_commit_mm", v.page_swipe_commit_mm),
        positive_rule("page_swipe_dominance", v.page_swipe_dominance),
        positive_rule("scroll_translation_win_mm", v.scroll_translation_win_mm),
        positive_rule("multi_swipe_commit_mm", v.multi_swipe_commit_mm),
        positive_rule("edge_commit_mm", v.edge_commit_mm),
        positive_rule("edge_zone_mm", v.edge_zone_mm),
        (
            !binary64::le(v.page_swipe_dominance, BITS_1),
            GestureConfigError::InvalidOrdering("page_swipe_dominance must be greater than 1"),
        ),
    ]
}

/// Whether a touch surface of `width` by `height` millimeters leaves room
/// for an edge zone of `edge_zone` on both sides of each axis: both finite
/// and each strictly greater than `2 * edge_zone`.
pub open spec fn surface_fits(width: u64, height: u64, edge_zone: u64) -> bool {
    let both_zones = double_non_negative(edge_zone);
    &&& binary64::is_finite(width)
    &&& binary64::is_finite(height)
    &&& !binary64::le(width, both_zones)
    &&& !binary64::le(height, both_zones)
}

/// Whether gesture configuration contents are valid.
pub open spec fn gesture_config_valid(v: GestureConfigView) -> bool {
    &&& all_hold(gesture_rules(v))
    &&& v.surface_size_mm matches Some((w, h)) ==> surface_fits(w, h, v.edge_zone_mm)
}

/// The recognizer's validated thresholds.
#[derive(Clone, Copy, Debug, PartialEq)]
pub struct GestureConfig {
    pinch_commit_mm: u64,
    rotate_commit_radians: u64,
    page_swipe_commit_mm: u64,
    page_swipe_dominance: u64,
    scroll_translation_win_mm: u64,
    multi_swipe_commit_mm: u64,
    edge_commit_mm: u64,
    edge_zone_mm: u64,
    surface_size_mm: Option<(u64, u64)>,
}

impl View for GestureConfig {
    type V = GestureConfigView;

    closed spec fn view(&self) -> GestureConfigView {
        GestureConfigView {
            pinch_commit_mm: self.pinch_commit_mm,
            rotate_commit_radians: self.rotate_commit_radians,
            page_swipe_commit_mm: self.page_swipe_commit_mm,
            page_swipe_dominance: self.page_swipe_dominance,
            scroll_translation_win_mm: self.scroll_translation_win_mm,
            multi_swipe_commit_mm: self.multi_swipe_commit_mm,
            edge_commit_mm: self.edge_commit_mm,
            edge_zone_mm: self.edge_zone_mm,
            surface_size_mm: self.surface_size_mm,
        }
    }
}

/// The positivity rule of one threshold.
fn check_positive(name: &'static str, value: u64) -> (r: (bool, GestureConfigError))
    ensures
        r == positive_rule(name, value),
{
    (positive(value), GestureConfigError::NonPositiveOrNonFinite { name, value })
}

impl GestureConfig {
    /// Every gesture configuration is valid.
    #[verifier::type_invariant]
    closed spec fn wf(self) -> bool {
        gesture_config_valid(self@)
    }

    /// Creates a validated configuration with no known touch surface. The
    /// thresholds are checked in argument order, then the page-swipe
    /// dominance against one; the first broken rule is reported.
    pub fn new(
        pinch_commit_mm: u64,
        rotate_commit_radians: u64,
        page_swipe_commit_mm: u64,
        page_swipe_dominance: u64,
        scroll_translation_win_mm: u64,
        multi_swipe_commit_mm: u64,
        edge_commit_mm: u64,
        edge_zone_mm: u64,
    ) -> (r: Result<GestureConfig, GestureConfigError>)
        ensures
            ({
                let v = GestureConfigView {
                    pinch_commit_mm,
                    rotate_commit_radians,
                    page_swipe_commit_mm,
                    page_swipe_dominance,
                    scroll_translation_win_mm,
                    multi_swipe_commit_mm,
                    edge_commit_mm,
                    edge_zone_mm,
                    surface_size_mm: None,
                };
                &&& r is Ok <==> all_hold(gesture_rules(v))
                &&& r matches Ok(c) ==> c@ == v
                &&& r matches Err(e) ==> first_violation(gesture_rules(v)) == Err::<
                    (),
                    GestureConfigError,
                >(e)
            }),
    {
        let ghost v = GestureConfigView {
            pinch_commit_mm,
            rotate_commit_radians,
            page_swipe_commit_mm,
            page_swipe_dominance,
            scroll_translation_win_mm,
            multi_swipe_commit_mm,
            edge_commit_mm,
            edge_zone_mm,
            surface_size_mm: None,
        };
        let rules = vec![
            check_positive("pinch_commit_mm", pinch_commit_mm),
            check_positive("rotate_commit_radians", rotate_commit_radians),
            check_positive("page_swipe_commit_mm", page_swipe_commit_mm),
            check_positive("page_swipe_dominance", page_swipe_dominance),
            check_positive("scroll_translation_win_mm", scroll_translation_win_mm),
            check_positive("multi_swipe_commit_mm", multi_swipe_commit_mm),
            check_positive("edge_commit_mm", edge_commit_mm),
            check_positive("edge_zone_mm", edge_zone_mm),
            (
                !binary64::less_or_equal(page_swipe_dominance, BITS_1),
                GestureConfigError::InvalidOrdering("page_swipe_dominance must be greater than 1"),
            ),
        ];
        proof {
            assert(rules@ =~= gesture_rules(v));
            lemma_first_violation(gesture_rules(v));
        }
        match first_violation_of(rules) {
            Ok(()) => Ok(
                GestureConfig {
                    pinch_commit_mm,
                    rotate_commit_radians,
                    page_swipe_commit_mm,
                    page_swipe_dominance,
                    scroll_translation_win_mm,
                    multi_swipe_commit_mm,
                    edge_commit_mm,
                    edge_zone_mm,
                    surface_size_mm: None,
                },
            ),
            Err(e) => Err(e),
        }
    }

    /// Records the touch-surface size, which enables edge-swipe detection.
    /// Rejected with [`GestureConfigError::InvalidSurface`] unless both
    /// sides are finite and strictly longer than two edge zones.
    pub fn with_surface_size_mm(self, width: u64, height: u64) -> (r: Result<
        GestureConfig,
        GestureConfigError,
    >)
        ensures
            r is Ok <==> surface_fits(width, height, self@.edge_zone_mm),
            r is Err ==> r == Err::<GestureConfig, GestureConfigError>(
                GestureConfigError::InvalidSurface,
            ),
            r matches Ok(c) ==> c@ == (GestureConfigView {
                surface_size_mm: Some((width, height)),
                ..self@
            }),
    {
        proof {
            use_type_invariant(&self);
            assert(gesture_rules(self@)[7].0);
        }
        let both_zones = binary64::double(self.edge_zone_mm);
        if !binary64::finite(width) || !binary64::finite(height) || binary64::less_or_equal(
            width,
            both_zones,
        ) || binary64::less_or_equal(height, both_zones) {
            return Err(GestureConfigError::InvalidSurface);
        }
        Ok(GestureConfig { surface_size_mm: Some((width, height)), ..self })
    }

    /// The span change that commits a pinch, in millimeters.
    pub fn pinch_commit_mm(&self) -> (r: u64)
        ensures
            r == self@.pinch_commit_mm,
    {
        self.pinch_commit_mm
    }

    /// The rotation that commits a rotate gesture, in radians.
    pub fn rotate_commit_radians(&self) -> (r: u64)
        ensures
            r == self@.rotate_commit_radians,
    {
        self.rotate_commit_radians
    }

    /// The horizontal travel that commits a two-finger page swipe.
    pub fn page_swipe_commit_mm(&self) -> (r: u64)
        ensures
            r == self@.page_swipe_commit_mm,
    {
        self.page_swipe_commit_mm
    }

    /// How many times the horizontal travel must exceed the vertical one
    /// for a page swipe.
    pub fn page_swipe_dominance(&self) -> (r: u64)
        ensures
            r == self@.page_swipe_dominance,
    {
        self.page_swipe_dominance
    }

    /// The two-finger translation at which ordinary scrolling wins.
    pub fn scroll_translation_win_mm(&self) -> (r: u64)
        ensures
            r == self@.scroll_translation_win_mm,
    {
        self.scroll_translation_win_mm
    }

    /// The travel that commits a three- or four-finger swipe.
    pub fn multi_swipe_commit_mm(&self) -> (r: u64)
        ensures
            r == self@.multi_swipe_commit_mm,
    {
        self.multi_swipe_commit_mm
    }

    /// The travel that commits an edge swipe.
    pub fn edge_commit_mm(&self) -> (r: u64)
        ensures
            r == self@.edge_commit_mm,
    {
        self.edge_commit_mm
    }

    /// The width of the edge zone in which an edge swipe must start.
    pub fn edge_zone_mm(&self) -> (r: u64)
        ensures
            r == self@.edge_zone_mm,
    {
        self.edge_zone_mm
    }

    /// The touch-surface size, when known.
    pub fn surface_size_mm(&self) -> (r: Option<(u64, u64)>)
        ensures
            r == self@.surface_size_mm,
    {
        self.surface_size_mm
    }
}

} // verus!
