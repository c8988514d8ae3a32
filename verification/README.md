# miniquad_test_utils

Small test programs for the miniquad graphics engine, with their logic
verified in Verus.

- `src/` is the verified library: window settings (`window_conf`), frame
  timing (`frame_timer`), the event-line logger (`event_logger`), the
  reporting interval (`report`), and the state each program keeps between
  events (`graphics`, `window`, `input`, `mouse`), plus the integer side of
  the drawing programs (`starfield`, `geometry`).
- `app/` holds the programs themselves: opening windows, rendering with
  miniquad, printing, and the floating-point animation. Run one with the
  program's name as the first argument: `window`, `input`, `graphics`,
  `mouse`, `wireframe`, `starfield` or `viewport`.
- `tests/` runs the library on concrete values.
