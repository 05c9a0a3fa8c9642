# touchpad_core

Platform-agnostic core of a touchpad runtime, written in Verus. The
functions in `src/` carry contracts that Verus proves, except the `eq`
methods of the hand-written `PartialEq` impls (their meaning is given by the
matching `eq_spec`) and the calls into `std` marked `external_body`, whose
contracts are trusted and documented where they stand.

## Layout

- `src/binary32.rs`, `src/binary64.rs`: IEEE 754 values carried as bit
  patterns, with their comparison order (and exact doubling) stated and
  implemented on integers.
- `src/rules.rs`: ordered rule lists; a validation reports its first broken
  rule.
- `src/text.rs`: building error and diagnostic texts.
- `src/units.rs`, `src/time.rs`, `src/time_span.rs`: millimeters, scales,
  raw axis values, monotonic timestamps, and the `Duration` calls used.
- `src/axis.rs`, `src/device.rs`, `src/contact.rs`, `src/diagnostic.rs`:
  device and axis descriptions, exact raw-to-millimeter conversion, contact
  frames and their structural validation.
- `src/dwt.rs`, `src/feel.rs`, `src/fidelity.rs`, `src/gesture.rs`: validated
  configuration (disable-while-typing, the feel overlay and its text editing,
  pointer fidelity, gesture thresholds).
- `src/arbiter.rs`, `src/m10.rs`, `src/m11.rs`: the interaction lifecycle
  transition table, tap and two-finger configuration, and the two named
  profiles.
- `src/interaction.rs`: the plain-valued decision steps of the interaction
  arbiter: frame admission (validation, sequence and timestamp regression),
  the source-aware button multiplexer (with the law that its events replay
  on the wire), the tap boundary policy, tap / drag / drag-lock release
  resolution, the end of a two-finger interaction, and the release of
  everything held.
- `src/pointer.rs`: the one-finger contact policy as a step (begin a
  candidate and the tap family, commit past the motion threshold, cancel,
  resolve the release, finish), with the laws that its transitions follow
  the lifecycle table, its events replay on the wire, and pointer motion is
  owed only past the threshold or once committed.
- `src/two_finger.rs`: the two-finger policy as a step (candidate, scroll
  commitment, release with the secondary tap, cancellation).
- `src/frame.rs`: the frame step composing them: admission, physical
  buttons, discontinuity, the tap deadline, contacts, the pair, and the
  ordering of the output (presses before the motion, releases after it),
  the tick, the escape path `release_all`, the frame-level law of the
  physical left button, and the `Arbiter` holding a configuration
  (`ArbiterConfig`, in `src/arbiter.rs`) and its state.
- `src/delivery.rs`: delivery accounting towards an output sink: what the
  sink holds from the events it accepted, the fault after a partial
  submission, the arbiter aligned with the sink, and the releases cleanup
  still owes.
- `src/output.rs`, `src/gesture_bindings.rs`: output events and the
  desktop-neutral gesture-to-action routing.
- `app/`: ordinary Rust around the library: serde copies of the
  configuration types, `std::error::Error` copies of the errors, binary32
  rounding of exact millimeters, the floating-point fidelity arithmetic, the
  frame loop that measures and quantizes the motion the frame step asks for,
  and diagnostics that print binary32 values.
- `tests/`: the library's tests.

## What is not here

- The sink adapter itself (`ArbiterSink`, its error type, and the sink trait
  and sink errors it is generic over), contact robustness filtering,
  scroll fidelity, the three-finger drag recognizer and the pointer-move
  and scroll-delta output events, whose sources are not part of this tree. The frame step takes what
  they decide as plain values (`FrameMotion`, the owner's events), and hands
  back the motion owed as markers.
- The continuous gesture recognizer (`process_gesture`): its geometry is
  floating point, and its contacts carry a role type whose source is not
  part of this tree. Its validated thresholds are in `src/gesture.rs`.
