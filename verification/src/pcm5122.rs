//! PCM5122 DAC control: the I2C register programme.
//!
//! The DAC is configured over I2C (SDA=18, SCL=19) and fed over I2S. Sending
//! the writes and driving the control pins is done by the firmware; which
//! registers are written, with which values and in which order, is here.

use vstd::prelude::*;

verus! {

/// 7-bit I2C address of the PCM5122.
pub const PCM5122_I2C_ADDR: u8 = 0x4D;

pub const SAMPLE_RATE_HZ: u32 = 48_000;

/// Left channel digital volume register.
pub const REG_VOLUME_LEFT: u8 = 0x3D;

/// Right channel digital volume register.
pub const REG_VOLUME_RIGHT: u8 = 0x3E;

/// The (register, value) writes that bring the DAC up, in order: enter
/// standby, mute control, PLL control, DAC control, digital filter select,
/// exit standby.
pub open spec fn spec_init_writes() -> Seq<(u8, u8)> {
    seq![(0x02u8, 0x11u8), (0x03u8, 0x00u8), (0x04u8, 0x00u8), (0x0Du8, 0x10u8), (0x25u8, 0x08u8), (0x02u8, 0x00u8)]
}

/// Register writes of the initialisation sequence (see [`spec_init_writes`]).
pub fn init_register_writes() -> (writes: [(u8, u8); 6])
    ensures
        writes@ == spec_init_writes(),
{
    let w: [(u8, u8); 6] = [(0x02, 0x11), (0x03, 0x00), (0x04, 0x00), (0x0D, 0x10), (0x25, 0x08), (0x02, 0x00)];
    assert(w@ =~= spec_init_writes());
    w
}

/// Register writes that set the volume: left, then right.
pub fn volume_register_writes(left: u8, right: u8) -> (writes: [(u8, u8); 2])
    ensures
        writes@ == seq![(REG_VOLUME_LEFT, left), (REG_VOLUME_RIGHT, right)],
{
    let w: [(u8, u8); 2] = [(REG_VOLUME_LEFT, left), (REG_VOLUME_RIGHT, right)];
    assert(w@ =~= seq![(REG_VOLUME_LEFT, left), (REG_VOLUME_RIGHT, right)]);
    w
}

} // verus!
