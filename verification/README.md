# zwo-rs

A verified model of the ZWO ASI camera / EFW filter-wheel SDK surface, written
in Verus.

- `src/lib.rs` — `Sdk`: enumeration counts and SDK version strings of the
  simulated environment.
- `src/error.rs` — `AsiError`, `EfwError`, `Error`, and `asi_check` /
  `efw_check`, which map raw SDK status codes to them.
- `src/camera.rs` — the value types (`ImageType`, `RoiFormat`, `ControlType`,
  ...) with their SDK codes, the decoders of raw SDK records, and the simulated
  `Camera` handle. The handle's state (`SimState`) is its view; the type
  invariant keeps the ROI acceptable and inside the binned sensor, and every
  control within its advertised range.
- `src/ffi_util.rs` — decoding of NUL-terminated C `char` fields and hex
  formatting of 8-byte hardware ids.
- `src/simulation.rs` — random noise for simulated frames (`rand`).
- `src/laws.rs` — proof functions relating the operations (round trips, the
  exposure cycle, consistency of the advertised controls, code round trips).
- `app/lib.rs` — floating-point views (°C, µm, e⁻/ADU) of the integer values
  the library keeps.
