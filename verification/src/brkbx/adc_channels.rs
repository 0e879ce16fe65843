//! ADC channel indices for brkbx (for implementers of `BrkbxHardware`).

use vstd::prelude::*;

verus! {

pub const KNOB1: u8 = 0;
pub const KNOB2: u8 = 1;
pub const KNOB3: u8 = 2;
pub const KNOB4: u8 = 3;
pub const JOY1_X: u8 = 4;
pub const JOY1_Y: u8 = 5;
pub const FADER1: u8 = 6;
pub const FADER2: u8 = 7;
pub const FADER3: u8 = 8;
pub const FADER4: u8 = 9;
pub const JOY2_X: u8 = 10;
pub const JOY2_Y: u8 = 11;

/// Number of ADC channels (0..CHANNEL_COUNT).
pub const CHANNEL_COUNT: usize = 12;

} // verus!
