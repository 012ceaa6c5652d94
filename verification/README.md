# owner_lag_repro

A scene of three overlapping counter tiles (A behind B behind C) sits behind a
UI pane D. Scene input is read early in each frame; the UI resolves who owns
the pointer later in the frame. In the stale-owner mode the scene gates its
input with the owner that the previous UI pass resolved, so dragging from C
into D can still change C. In the hit-test mode the scene tests the current
pointer against the latest published UI regions, and D blocks the input.

- `src/` is the verified library: owner hit tests (`owner`), tiles, banners
  and the text they show (`scene`, `text`), the repro's state and its
  transitions (`repro`), the properties proved of them (`laws`), and the
  `egui` types and calls that the library relies on (`ui_types`).
- `app/` is the Bevy + egui program: it reads the mouse and keyboard, lays out
  and paints the UI, and hands the library plain values.
- `tests/` runs the library on concrete scenes.
