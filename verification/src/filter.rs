//! Filter types. The filters themselves are floating-point DSP and live with
//! the firmware.

use vstd::prelude::*;

verus! {

/// Filter response type.
#[derive(Debug, Clone, Copy, PartialEq, Eq, Structural)]
pub enum FilterType {
    LowPass,
    HighPass,
    BandPass,
}

} // verus!
