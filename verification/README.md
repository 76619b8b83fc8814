# freddie

A verified library for a keyboard and window-management daemon: typed key events and the
triggers that match them, the dual-role and sequence state machines, typed mutable paths into a
model tree (`laserbeam`) with the bind dispatch that walks them, the single-instance and log
decisions, the event-socket origin gate, and the menu-bar glyph.

- `src/` is the library. Every function in it is verified by Verus against its `requires` and
  `ensures`; the few calls into std, tokio and `image` go through small trusted wrappers whose
  doc comments say what is assumed of them.
- `tests/` runs the library on concrete values.
- `app/` holds what cannot be verified: sockets, files, the environment, the process-wide timer
  counter, and the floating-point window geometry. It calls the library for every decision.

The macOS event taps, Accessibility observers and AppKit panels, and the derive macro that
writes the bind impls, are not part of this crate; the derive's output is written out by hand in
the tests.
