# egui_window_winit

A winit window backend for egui, split in two.

- `src/` is the verified library: the translation of platform keys, modifier
  keys, mouse buttons and touches into egui input, and the state machine that
  the event loop drives (gathering input, tracking the touch that drives the
  pointer, the resize and close flags, suspension). Positions, sizes and
  scales are type parameters, so the library holds no floating-point value.
- `app/` creates the window and runs winit's event loop: it turns winit's
  events into the library's, does the floating-point arithmetic, and turns
  the gathered input into egui's `RawInput`.
