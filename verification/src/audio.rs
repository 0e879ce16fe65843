//! Audio output parameters for the DAC (I2S/SAI). The sample-producing block
//! callback works on `f32` samples and the board resources, and lives with
//! the firmware outside this library.

use vstd::prelude::*;

verus! {

/// Audio sample rate for the synth (PCM5102 supports 44.1 kHz, 48 kHz, etc.).
pub const SAMPLE_RATE_HZ: u32 = 48_000;

/// Buffer size in samples per channel (block sent to DAC).
pub const BLOCK_SIZE: usize = 128;

/// Initialize audio hardware. Board resources are owned by main; this is a
/// no-op until the SAI/I2S driver is wired up.
pub fn init_audio() {
}

} // verus!
