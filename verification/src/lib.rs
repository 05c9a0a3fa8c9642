//! Platform-agnostic core of a touchpad runtime: device and axis
//! descriptions, raw-to-millimeter conversion, structured diagnostics,
//! disable-while-typing policy, the tap and two-finger configuration of the
//! interaction arbiter, the arbiter's lifecycle transition table and its
//! plain-valued decision steps (frame admission, button multiplexing, tap /
//! drag / drag-lock release, the one-finger and two-finger policies, the
//! frame step and its output ordering, delivery accounting towards an output
//! sink), validated feel, fidelity and gesture
//! thresholds, and the desktop-neutral gesture-to-action routing.
//!
//! Not here: the floating-point motion arithmetic (distances, pixel
//! quantization), which the frame step takes as plain outcomes and asks for
//! by markers, and the continuous gesture recognizer, which rests on
//! floating-point geometry and on modules (robustness, scroll fidelity,
//! three-finger drag, output sinks) that this crate does not contain.
//!
//! Binary32 quantities (millimeters, scales, gesture magnitudes) are carried
//! as their IEEE 754 bit patterns; comparisons on them follow the IEEE 754
//! ordering, stated in [`binary32`].

pub mod binary32;
pub mod binary64;
pub mod rules;
pub mod text;
pub mod units;
pub mod time_span;
pub mod axis;
pub mod device;
pub mod diagnostic;
pub mod dwt;
pub mod output;
pub mod gesture_bindings;
pub mod arbiter;
pub mod m10;
pub mod m11;
pub mod contact;
pub mod time;
pub mod fidelity;
pub mod gesture;
pub mod feel;
pub mod interaction;
pub mod pointer;
pub mod two_finger;
pub mod frame;
pub mod delivery;
