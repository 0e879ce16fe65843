//! Brkbx hardware driver for Teensy 4.1.
//!
//! | Function         | Pin(s)              | Notes                         |
//! |------------------|---------------------|-------------------------------|
//! | Key matrix rows  | 1, 2, 3, 4          | GPIO input, pull-down         |
//! | Key matrix cols  | 9, 10, 11, 12, 0    | GPIO output (high when scan)  |
//! | Knobs 1–4        | 14, 15, 16, 17 (A0–A3) | ADC1/ADC2                  |
//! | Faders 1–2       | 26, 27 (A12, A13)   | ADC                           |
//! | Faders 3–4       | 38, 39              | ADC                           |
//! | Joystick 1 X,Y   | 24, 25 (A10, A11)   | ADC                           |
//! | Joystick 1 sel   | 30                  | GPIO input, pull-up (invert)  |
//! | Joystick 2 X,Y   | 40, 41              | ADC                           |
//! | Joystick 2 sel   | 35                  | GPIO input, pull-up (invert)  |
//! | LEDs             | 5, 6, 23, 22        | SLOW, FLIP, HOLD, PLAY        |
//! | Rotary 1 (sample)| 32 (CLK), 31 (DT)   | Quadrature encoder            |
//! | Rotary 1 button  | 36                  | GPIO input, pull-up (invert)  |
//! | Rotary 2 (BPM)   | 33 (CLK), 34 (DT)   | Quadrature encoder            |
//! | Rotary 2 button  | 37                  | GPIO input, pull-up (invert)  |
//!
//! This module provides a **stub** implementation that returns default
//! values (no keys pressed, knobs/sliders at 0, no rotary delta). Replace
//! [`BrkbxStub`] with a real implementation that owns the board's pins and ADC.

use vstd::prelude::*;
use crate::brkbx::{BrkbxHardware, BrkbxView, HwCall};
use crate::state::LedsState;

verus! {

/// Stub implementation: returns default/zero for all inputs, no-ops for LEDs.
/// The LED outputs it was last asked to show, and the calls made on it, are
/// kept as ghost state only.
pub struct BrkbxStub {
    leds: Ghost<LedsState>,
    trace: Ghost<Seq<HwCall>>,
}

impl Default for BrkbxStub {
    /// A stub whose LEDs were last driven off and on which no call was made.
    fn default() -> (stub: Self)
        ensures
            stub.led_outputs() == (LedsState { slow: false, flip: false, hold: false, play: false }),
            stub.brkbx_view().trace == Seq::<HwCall>::empty(),
    {
        BrkbxStub {
            leds: Ghost(LedsState { slow: false, flip: false, hold: false, play: false }),
            trace: Ghost(Seq::empty()),
        }
    }
}

/// What the stub reads: no key pressed, every ADC channel at 0, no button
/// pressed, no rotary motion (LEDs off and no call made, until driven).
pub open spec fn stub_view() -> BrkbxView {
    BrkbxView {
        keys: |i: int| false,
        adc: |c: int| 0u16,
        joystick1_sel: false,
        joystick2_sel: false,
        rotary1_button: false,
        rotary2_button: false,
        rotary1_delta: 0,
        rotary2_delta: 0,
        leds: LedsState { slow: false, flip: false, hold: false, play: false },
        trace: Seq::empty(),
    }
}

impl BrkbxStub {
    /// The LED outputs the stub was last driven to.
    pub closed spec fn led_outputs(&self) -> LedsState {
        self.leds@
    }

    /// The stub's view: what it reads (see [`stub_view`]), its LED outputs
    /// and its trace.
    pub proof fn lemma_stub_view(&self)
        ensures
            self.brkbx_view() == (BrkbxView {
                leds: self.led_outputs(),
                trace: self.brkbx_view().trace,
                ..stub_view()
            }),
    {
    }
}

impl BrkbxHardware for BrkbxStub {
    closed spec fn brkbx_view(&self) -> BrkbxView {
        BrkbxView { leds: self.leds@, trace: self.trace@, ..stub_view() }
    }

    fn read_key(&mut self, _row: u8, _col: u8) -> (r: bool)
        ensures
            !r,
    {
        self.trace = Ghost(self.trace@.push(HwCall::ReadKey { row: _row, col: _col, pressed: false }));
        assert(self.brkbx_view().with_key(_row, _col, false) =~= self.brkbx_view());
        false
    }

    fn read_adc_raw(&mut self, _channel: u8) -> (r: u16)
        ensures
            r == 0,
    {
        self.trace = Ghost(self.trace@.push(HwCall::ReadAdc { channel: _channel, raw: 0 }));
        assert(self.brkbx_view().with_adc(_channel, 0) =~= self.brkbx_view());
        0
    }

    fn read_joystick1_sel(&mut self) -> (r: bool)
        ensures
            !r,
    {
        self.trace = Ghost(self.trace@.push(HwCall::ReadJoystick1Sel { pressed: false }));
        false
    }

    fn read_joystick2_sel(&mut self) -> (r: bool)
        ensures
            !r,
    {
        self.trace = Ghost(self.trace@.push(HwCall::ReadJoystick2Sel { pressed: false }));
        false
    }

    fn read_rotary1_button(&mut self) -> (r: bool)
        ensures
            !r,
    {
        self.trace = Ghost(self.trace@.push(HwCall::ReadRotary1Button { pressed: false }));
        false
    }

    fn read_rotary2_button(&mut self) -> (r: bool)
        ensures
            !r,
    {
        self.trace = Ghost(self.trace@.push(HwCall::ReadRotary2Button { pressed: false }));
        false
    }

    fn rotary1_delta(&mut self) -> (r: i32)
        ensures
            r == 0,
    {
        self.trace = Ghost(self.trace@.push(HwCall::Rotary1Delta { delta: 0 }));
        0
    }

    fn rotary2_delta(&mut self) -> (r: i32)
        ensures
            r == 0,
    {
        self.trace = Ghost(self.trace@.push(HwCall::Rotary2Delta { delta: 0 }));
        0
    }

    fn set_led_slow(&mut self, on: bool) {
        self.trace = Ghost(self.trace@.push(HwCall::SetLedSlow { on }));
        self.leds = Ghost(LedsState { slow: on, ..self.leds@ });
    }

    fn set_led_flip(&mut self, on: bool) {
        self.trace = Ghost(self.trace@.push(HwCall::SetLedFlip { on }));
        self.leds = Ghost(LedsState { flip: on, ..self.leds@ });
    }

    fn set_led_hold(&mut self, on: bool) {
        self.trace = Ghost(self.trace@.push(HwCall::SetLedHold { on }));
        self.leds = Ghost(LedsState { hold: on, ..self.leds@ });
    }

    fn set_led_play(&mut self, on: bool) {
        self.trace = Ghost(self.trace@.push(HwCall::SetLedPlay { on }));
        self.leds = Ghost(LedsState { play: on, ..self.leds@ });
    }
}

} // verus!
