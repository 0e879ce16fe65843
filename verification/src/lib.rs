//! # little_synth
//!
//! The integer and state-machine core of the little-synth firmware: MIDI
//! message decoding and the byte-stream parser fed by the UART, the
//! controller key matrix and polling logic, the display abstraction, and the
//! control decisions of the envelope, LFO and delay line. Each function
//! carries a contract checked by Verus.

pub mod midi;
pub mod midi_uart;
pub mod state;
pub mod controller;
pub mod brkbx;
pub mod brkbx_teensy41;
pub mod display;
pub mod audio;
pub mod sai_simple;
pub mod envelope;
pub mod lfo;
pub mod filter;
pub mod effects;
pub mod pcm5122;
pub mod sai_driver;
