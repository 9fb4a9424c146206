# loopstation_core_stm32

Core of a six-track loop station for an STM32H7 board, with its decision
logic verified by Verus.

- `src/` is the verified library: track transport states and the circular
  sample buffer, MIDI parsing/encoding and channel filtering, the system
  settings pages, button debouncing and gesture recognition (both the
  expander-level and the control-surface level), the button-to-function map,
  rotary encoder decoding, LED shift-register bookkeeping, USB audio routing
  and format checks, the memory-slot bank, effect slots, tap tempo, the
  display-link framing and status text, and the latency budget.
- `app/` is ordinary Rust around it: sample processing, effects, LFOs, the
  drum synthesizer and everything else that runs on floating point, device
  I/O, and the JSON message types of the display link.
- `tests/` runs the library on concrete values.
