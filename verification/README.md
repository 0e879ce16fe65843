# little_synth

The verified core of the little-synth firmware (Teensy 4.1, PCM5102/PCM5122
DAC over I2S, MIDI over UART, brkbx-style controller hardware).

- `src/` — the library, checked by Verus: MIDI decoding (`midi`) and the
  UART byte-stream parser (`midi_uart`); the controller key matrix, state and
  polling (`state`, `controller`, `brkbx`, `brkbx_teensy41`); the display
  abstraction (`display`); the envelope stage machine (`envelope`), LFO modes
  (`lfo`), filter types (`filter`) and the delay line (`effects`); audio and
  SAI parameters, the SAI double buffer (`audio`, `sai_simple`, `sai_driver`)
  and the PCM5122 register programme (`pcm5122`).
- `app/` — the rest of the firmware: floating-point DSP (oscillator, envelope
  levels, LFO shapes, filters, effects), the float view of controller
  readings, the key-press logger, the memory-mapped SAI/I2C drivers and the
  main loop.
- `tests/` — tests of the library.
