# thor-rs-propagator (verified)

The propagator contract for THOR, as a Verus library.

- `src/` — the verified library: frame/origin tags and the loud
  frame/origin check (`FrameOrigin::require`), the error contract and its
  texts (`PropagatorError::message`), the propagation / ephemeris
  configuration types with their defaults (Precision and Survey profiles),
  and the interface's defaulted behaviors (`default_force_model`,
  `body_positions_unsupported`).
- `app/` — the surface backends implement: the `Propagator` trait and the
  floating-point state / ephemeris types, serde copies of the configuration
  types and the thiserror form of the error, all delegating their decisions
  to the library.
- `tests/` — scenario tests of the library.
