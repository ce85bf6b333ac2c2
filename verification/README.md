# Selah

A control panel for Audient iD USB audio interfaces. The decisions it makes
are verified with Verus; the window and the USB transfers are thin ordinary
Rust around them.

- `src/` — the verified library (crate `selah`):
  - `device/` — the model catalog, read-only discovery, safe control
    interface selection and session planning, the control protocol
    encoders and decoders, send and poll planning, error messages, and the
    copy-safe diagnostics block;
  - `routing.rs`, `monitor.rs`, `mixer.rs` — per-model routing maps and the
    honest send state of every control (unknown, sending, sent, failed,
    confirmed);
  - `controller.rs` — the application state machine: one message in, the
    next state and the background work out;
  - `laws.rs` — properties that span operations, proved once for all inputs.
- `tests/` — scenario tests on concrete values.
- `app/` — the Iced window, nusb transfers, the hot-plug watcher, and
  floating-point slider levels.
