//! Brkbx-style hardware: key matrix, knobs, faders, joysticks, rotary encoders.
//!
//! Pinout matches brkbx control.py (Teensy 4.1 / Arduino-style pin names).
//!
//! | Function        | Pin(s)              | Notes                    |
//! |-----------------|---------------------|--------------------------|
//! | Key matrix rows | D1, D2, D3, D4      | Input, pull-down         |
//! | Key matrix cols | D9, D10, D11, D12, D0 | Output (drive high when scanning) |
//! | Knobs 1–4       | A0, A1, A2, A3      | ADC (pins 14–17)         |
//! | Faders 1–2      | A12, A13            | ADC (pins 26–27)         |
//! | Faders 3–4      | D38, D39            | ADC (pins 38–39)         |
//! | Joystick 1 X,Y  | A10, A11            | ADC (pins 24–25)         |
//! | Joystick 1 sel  | D30                 | Digital in, pull-up      |
//! | Joystick 2 X,Y  | D40, D41            | ADC (pins 40–41)         |
//! | Joystick 2 sel  | D35                 | Digital in, pull-up      |
//! | LEDs            | D5, D6, D23, D22    | SLOW, FLIP, HOLD, PLAY   |
//! | Rotary 1 (sample)| D32 (CLK), D31 (DT) | Encoder                 |
//! | Rotary 1 button | D36                 | Input, pull-up (inverted)|
//! | Rotary 2 (BPM)  | D33 (CLK), D34 (DT) | Encoder                  |
//! | Rotary 2 button | D37                 | Input, pull-up (inverted)|

use vstd::prelude::*;
use crate::state::{
    key_index, spec_key_index, ControllerState, JoystickState, KeyIndex, LedsState, KEY_COLS, KEY_COUNT,
    KEY_ROWS,
};
use crate::controller::Controller;

pub mod adc_channels;

use adc_channels::{
    CHANNEL_COUNT, FADER1, FADER2, FADER3, FADER4, JOY1_X, JOY1_Y, JOY2_X, JOY2_Y, KNOB1, KNOB2,
    KNOB3, KNOB4,
};

verus! {

/// One call on a brkbx driver, with what it returned or was given.
#[derive(Debug, Clone, Copy, PartialEq, Eq, Structural)]
pub enum HwCall {
    ReadKey { row: u8, col: u8, pressed: bool },
    ReadAdc { channel: u8, raw: u16 },
    ReadJoystick1Sel { pressed: bool },
    ReadJoystick2Sel { pressed: bool },
    ReadRotary1Button { pressed: bool },
    ReadRotary2Button { pressed: bool },
    Rotary1Delta { delta: i32 },
    Rotary2Delta { delta: i32 },
    SetLedSlow { on: bool },
    SetLedFlip { on: bool },
    SetLedHold { on: bool },
    SetLedPlay { on: bool },
}

/// What a brkbx driver last read from each input and last drove on each
/// LED: the key matrix (row-major, by key index), the ADC channels, the
/// joystick select and rotary buttons, the rotary deltas, and the LEDs; and
/// the trace of every call made on it, in order.
#[verifier::ext_equal]
pub ghost struct BrkbxView {
    pub keys: spec_fn(int) -> bool,
    pub adc: spec_fn(int) -> u16,
    pub joystick1_sel: bool,
    pub joystick2_sel: bool,
    pub rotary1_button: bool,
    pub rotary2_button: bool,
    pub rotary1_delta: i32,
    pub rotary2_delta: i32,
    pub leds: LedsState,
    pub trace: Seq<HwCall>,
}

impl BrkbxView {
    /// After reading key (row, col) as `pressed`: that key's entry, if the
    /// cell is in the matrix.
    pub open spec fn with_key(self, row: u8, col: u8, pressed: bool) -> BrkbxView {
        if row < KEY_ROWS && col < KEY_COLS {
            let i = spec_key_index(row as int, col as int);
            BrkbxView { keys: |j: int| if j == i { pressed } else { (self.keys)(j) }, ..self }
        } else {
            self
        }
    }

    /// After reading ADC channel `channel` as `raw`: that channel's entry,
    /// if the channel exists.
    pub open spec fn with_adc(self, channel: u8, raw: u16) -> BrkbxView {
        if channel < CHANNEL_COUNT {
            BrkbxView { adc: |j: int| if j == channel as int { raw } else { (self.adc)(j) }, ..self }
        } else {
            self
        }
    }

    /// The call `call` appended to the trace.
    pub open spec fn record(self, call: HwCall) -> BrkbxView {
        BrkbxView { trace: self.trace.push(call), ..self }
    }
}

/// The key reads of a full matrix scan, row by row, for the first `n` cells
/// of row-major `keys`.
pub open spec fn key_scan(keys: Seq<bool>, n: int) -> Seq<HwCall> {
    Seq::new(
        n as nat,
        |i: int|
            HwCall::ReadKey {
                row: (i / (KEY_COLS as int)) as u8,
                col: (i % (KEY_COLS as int)) as u8,
                pressed: keys[i],
            },
    )
}

/// The calls a poll makes, in order, with the values that end up in `s`:
/// the key matrix row by row, knobs 1–4, faders 1–4, joystick 1 x, y and
/// select, joystick 2 x, y and select, the two rotary deltas, the two
/// rotary buttons.
pub open spec fn poll_calls(s: ControllerState) -> Seq<HwCall> {
    key_scan(s.keys@, KEY_COUNT as int) + seq![
        HwCall::ReadAdc { channel: KNOB1, raw: s.knobs[0] },
        HwCall::ReadAdc { channel: KNOB2, raw: s.knobs[1] },
        HwCall::ReadAdc { channel: KNOB3, raw: s.knobs[2] },
        HwCall::ReadAdc { channel: KNOB4, raw: s.knobs[3] },
        HwCall::ReadAdc { channel: FADER1, raw: s.sliders[0] },
        HwCall::ReadAdc { channel: FADER2, raw: s.sliders[1] },
        HwCall::ReadAdc { channel: FADER3, raw: s.sliders[2] },
        HwCall::ReadAdc { channel: FADER4, raw: s.sliders[3] },
        HwCall::ReadAdc { channel: JOY1_X, raw: s.joystick1.x },
        HwCall::ReadAdc { channel: JOY1_Y, raw: s.joystick1.y },
        HwCall::ReadJoystick1Sel { pressed: s.joystick1.pressed },
        HwCall::ReadAdc { channel: JOY2_X, raw: s.joystick2.x },
        HwCall::ReadAdc { channel: JOY2_Y, raw: s.joystick2.y },
        HwCall::ReadJoystick2Sel { pressed: s.joystick2.pressed },
        HwCall::Rotary1Delta { delta: s.rotary1_delta },
        HwCall::Rotary2Delta { delta: s.rotary2_delta },
        HwCall::ReadRotary1Button { pressed: s.rotary1_button },
        HwCall::ReadRotary2Button { pressed: s.rotary2_button },
    ]
}

/// The calls a poll makes after scanning the key matrix, appended to `t`
/// one by one.
spec fn after_scan_pushes(t: Seq<HwCall>, s: ControllerState) -> Seq<HwCall> {
    t.push(HwCall::ReadAdc { channel: KNOB1, raw: s.knobs[0] }).push(
        HwCall::ReadAdc { channel: KNOB2, raw: s.knobs[1] },
    ).push(HwCall::ReadAdc { channel: KNOB3, raw: s.knobs[2] }).push(
        HwCall::ReadAdc { channel: KNOB4, raw: s.knobs[3] },
    ).push(HwCall::ReadAdc { channel: FADER1, raw: s.sliders[0] }).push(
        HwCall::ReadAdc { channel: FADER2, raw: s.sliders[1] },
    ).push(HwCall::ReadAdc { channel: FADER3, raw: s.sliders[2] }).push(
        HwCall::ReadAdc { channel: FADER4, raw: s.sliders[3] },
    ).push(HwCall::ReadAdc { channel: JOY1_X, raw: s.joystick1.x }).push(
        HwCall::ReadAdc { channel: JOY1_Y, raw: s.joystick1.y },
    ).push(HwCall::ReadJoystick1Sel { pressed: s.joystick1.pressed }).push(
        HwCall::ReadAdc { channel: JOY2_X, raw: s.joystick2.x },
    ).push(HwCall::ReadAdc { channel: JOY2_Y, raw: s.joystick2.y }).push(
        HwCall::ReadJoystick2Sel { pressed: s.joystick2.pressed },
    ).push(HwCall::Rotary1Delta { delta: s.rotary1_delta }).push(
        HwCall::Rotary2Delta { delta: s.rotary2_delta },
    ).push(HwCall::ReadRotary1Button { pressed: s.rotary1_button }).push(
        HwCall::ReadRotary2Button { pressed: s.rotary2_button },
    )
}

proof fn lemma_poll_trace(t0: Seq<HwCall>, s: ControllerState)
    ensures
        after_scan_pushes(t0 + key_scan(s.keys@, KEY_COUNT as int), s) == t0 + poll_calls(s),
{
    assert(after_scan_pushes(t0 + key_scan(s.keys@, KEY_COUNT as int), s) =~= t0 + poll_calls(s));
}

/// The calls that drive the LEDs to `leds`: SLOW, FLIP, HOLD, PLAY, once each.
pub open spec fn led_calls(leds: LedsState) -> Seq<HwCall> {
    seq![
        HwCall::SetLedSlow { on: leds.slow },
        HwCall::SetLedFlip { on: leds.flip },
        HwCall::SetLedHold { on: leds.hold },
        HwCall::SetLedPlay { on: leds.play },
    ]
}

/// Low-level hardware access for the brkbx pinout.
///
/// Implement this for your MCU (e.g. Teensy 4.1) so that [`BrkbxHal`] can
/// read keys, ADC, and drive LEDs. What a read returns depends on the
/// hardware; each method records what it read or drove in
/// [`BrkbxHardware::brkbx_view`], appends itself to the view's trace, and
/// leaves the rest of the view as it was.
/// The view is specification only: an implementation defines it from its
/// (ghost) state, and it is never called at run time.
pub trait BrkbxHardware {
    /// What this driver last read and last drove, and the calls made on it.
    spec fn brkbx_view(&self) -> BrkbxView;

    /// Read key matrix: drive col `col` (0..5), then read rows; return true if (row, col) is pressed.
    fn read_key(&mut self, row: u8, col: u8) -> (pressed: bool)
        ensures
            final(self).brkbx_view() == old(self).brkbx_view().with_key(row, col, pressed).record(
                HwCall::ReadKey { row, col, pressed },
            ),
    ;

    /// Read ADC channel (0–11): knobs 0–3, joystick1 x/y, faders 0–3, joystick2 x/y.
    /// Returns the raw 16-bit value.
    fn read_adc_raw(&mut self, channel: u8) -> (raw: u16)
        ensures
            final(self).brkbx_view() == old(self).brkbx_view().with_adc(channel, raw).record(
                HwCall::ReadAdc { channel, raw },
            ),
    ;

    /// Read digital input for joystick/rotary buttons (inverted logic: true = pressed).
    fn read_joystick1_sel(&mut self) -> (pressed: bool)
        ensures
            final(self).brkbx_view() == (BrkbxView {
                joystick1_sel: pressed,
                ..old(self).brkbx_view()
            }).record(HwCall::ReadJoystick1Sel { pressed }),
    ;

    fn read_joystick2_sel(&mut self) -> (pressed: bool)
        ensures
            final(self).brkbx_view() == (BrkbxView {
                joystick2_sel: pressed,
                ..old(self).brkbx_view()
            }).record(HwCall::ReadJoystick2Sel { pressed }),
    ;

    fn read_rotary1_button(&mut self) -> (pressed: bool)
        ensures
            final(self).brkbx_view() == (BrkbxView {
                rotary1_button: pressed,
                ..old(self).brkbx_view()
            }).record(HwCall::ReadRotary1Button { pressed }),
    ;

    fn read_rotary2_button(&mut self) -> (pressed: bool)
        ensures
            final(self).brkbx_view() == (BrkbxView {
                rotary2_button: pressed,
                ..old(self).brkbx_view()
            }).record(HwCall::ReadRotary2Button { pressed }),
    ;

    /// Rotary encoder deltas since last poll.
    fn rotary1_delta(&mut self) -> (delta: i32)
        ensures
            final(self).brkbx_view() == (BrkbxView {
                rotary1_delta: delta,
                ..old(self).brkbx_view()
            }).record(HwCall::Rotary1Delta { delta }),
    ;

    fn rotary2_delta(&mut self) -> (delta: i32)
        ensures
            final(self).brkbx_view() == (BrkbxView {
                rotary2_delta: delta,
                ..old(self).brkbx_view()
            }).record(HwCall::Rotary2Delta { delta }),
    ;

    /// Set LED outputs (true = on).
    fn set_led_slow(&mut self, on: bool)
        ensures
            final(self).brkbx_view() == (BrkbxView {
                leds: LedsState { slow: on, ..old(self).brkbx_view().leds },
                ..old(self).brkbx_view()
            }).record(HwCall::SetLedSlow { on }),
    ;

    fn set_led_flip(&mut self, on: bool)
        ensures
            final(self).brkbx_view() == (BrkbxView {
                leds: LedsState { flip: on, ..old(self).brkbx_view().leds },
                ..old(self).brkbx_view()
            }).record(HwCall::SetLedFlip { on }),
    ;

    fn set_led_hold(&mut self, on: bool)
        ensures
            final(self).brkbx_view() == (BrkbxView {
                leds: LedsState { hold: on, ..old(self).brkbx_view().leds },
                ..old(self).brkbx_view()
            }).record(HwCall::SetLedHold { on }),
    ;

    fn set_led_play(&mut self, on: bool)
        ensures
            final(self).brkbx_view() == (BrkbxView {
                leds: LedsState { play: on, ..old(self).brkbx_view().leds },
                ..old(self).brkbx_view()
            }).record(HwCall::SetLedPlay { on }),
    ;
}

/// Full scale of a raw ADC reading.
pub const ADC_MAX: u16 = 65535;

/// Assemble the controller state from one round of hardware readings: the
/// key matrix as read, knobs from channels KNOB1..KNOB4, sliders from
/// FADER1..FADER4, joystick 1 from JOY1_X/JOY1_Y and its select button,
/// joystick 2 from JOY2_X/JOY2_Y and its select button, and the rotary deltas
/// and buttons.
pub fn state_from_readings(
    keys: [bool; KEY_COUNT],
    adc: [u16; CHANNEL_COUNT],
    joystick1_sel: bool,
    joystick2_sel: bool,
    rotary1_delta: i32,
    rotary2_delta: i32,
    rotary1_button: bool,
    rotary2_button: bool,
) -> (s: ControllerState)
    ensures
        s.keys == keys,
        s.knobs@ == seq![adc[KNOB1 as int], adc[KNOB2 as int], adc[KNOB3 as int], adc[KNOB4 as int]],
        s.sliders@ == seq![adc[FADER1 as int], adc[FADER2 as int], adc[FADER3 as int], adc[FADER4 as int]],
        s.joystick1 == (JoystickState { x: adc[JOY1_X as int], y: adc[JOY1_Y as int], pressed: joystick1_sel }),
        s.joystick2 == (JoystickState { x: adc[JOY2_X as int], y: adc[JOY2_Y as int], pressed: joystick2_sel }),
        s.rotary1_delta == rotary1_delta,
        s.rotary2_delta == rotary2_delta,
        s.rotary1_button == rotary1_button,
        s.rotary2_button == rotary2_button,
{
    ControllerState {
        keys,
        knobs: [
            adc[KNOB1 as usize],
            adc[KNOB2 as usize],
            adc[KNOB3 as usize],
            adc[KNOB4 as usize],
        ],
        sliders: [
            adc[FADER1 as usize],
            adc[FADER2 as usize],
            adc[FADER3 as usize],
            adc[FADER4 as usize],
        ],
        joystick1: JoystickState {
            x: adc[JOY1_X as usize],
            y: adc[JOY1_Y as usize],
            pressed: joystick1_sel,
        },
        joystick2: JoystickState {
            x: adc[JOY2_X as usize],
            y: adc[JOY2_Y as usize],
            pressed: joystick2_sel,
        },
        rotary1_delta,
        rotary2_delta,
        rotary1_button,
        rotary2_button,
    }
}

/// Brkbx hardware abstraction: implements [`Controller`] by polling [`BrkbxHardware`].
pub struct BrkbxHal<H> {
    hardware: H,
}

impl<H> BrkbxHal<H> {
    /// The hardware driver this abstraction polls.
    pub closed spec fn hardware(&self) -> H {
        self.hardware
    }

    pub fn new(hardware: H) -> (hal: Self)
        ensures
            hal.hardware() == hardware,
    {
        Self { hardware }
    }
}

impl<H: BrkbxHardware> Controller for BrkbxHal<H> {
    /// Scan the key matrix row by row, read the ADC channels, buttons and
    /// rotary deltas, and assemble them with [`state_from_readings`]: the
    /// state holds exactly what the hardware was read as, the LEDs are left
    /// as they were, and the hardware's trace has grown by exactly the calls
    /// of [`poll_calls`]: each input read once, in that order.
    fn poll(&mut self) -> (s: ControllerState)
        ensures
            ({
                let v = final(self).hardware().brkbx_view();
                &&& forall|i: int| 0 <= i < KEY_COUNT ==> s.keys[i] == (v.keys)(i)
                &&& s.knobs@ == seq![
                    (v.adc)(KNOB1 as int),
                    (v.adc)(KNOB2 as int),
                    (v.adc)(KNOB3 as int),
                    (v.adc)(KNOB4 as int),
                ]
                &&& s.sliders@ == seq![
                    (v.adc)(FADER1 as int),
                    (v.adc)(FADER2 as int),
                    (v.adc)(FADER3 as int),
                    (v.adc)(FADER4 as int),
                ]
                &&& s.joystick1 == (JoystickState {
                    x: (v.adc)(JOY1_X as int),
                    y: (v.adc)(JOY1_Y as int),
                    pressed: v.joystick1_sel,
                })
                &&& s.joystick2 == (JoystickState {
                    x: (v.adc)(JOY2_X as int),
                    y: (v.adc)(JOY2_Y as int),
                    pressed: v.joystick2_sel,
                })
                &&& s.rotary1_delta == v.rotary1_delta
                &&& s.rotary2_delta == v.rotary2_delta
                &&& s.rotary1_button == v.rotary1_button
                &&& s.rotary2_button == v.rotary2_button
                &&& v.leds == old(self).hardware().brkbx_view().leds
                &&& v.trace == old(self).hardware().brkbx_view().trace + poll_calls(s)
            }),
    {
        let ghost leds0 = self.hardware.brkbx_view().leds;
        let ghost trace0 = self.hardware.brkbx_view().trace;

        // Key matrix: row × col, stored row-major
        let mut keys = [false; KEY_COUNT];
        let mut row: u8 = 0;
        while row < KEY_ROWS as u8
            invariant
                row <= KEY_ROWS,
                self.hardware.brkbx_view().leds == leds0,
                forall|i: int|
                    0 <= i < row * KEY_COLS ==> keys[i] == (self.hardware.brkbx_view().keys)(i),
                self.hardware.brkbx_view().trace == trace0 + key_scan(keys@, row * KEY_COLS),
            decreases KEY_ROWS - row,
        {
            let mut col: u8 = 0;
            while col < KEY_COLS as u8
                invariant
                    row < KEY_ROWS,
                    col <= KEY_COLS,
                    self.hardware.brkbx_view().leds == leds0,
                    forall|i: int|
                        0 <= i < row * KEY_COLS + col ==> keys[i] == (
                        self.hardware.brkbx_view().keys)(i),
                    self.hardware.brkbx_view().trace == trace0 + key_scan(
                        keys@,
                        row * KEY_COLS + col,
                    ),
                decreases KEY_COLS - col,
            {
                let idx: KeyIndex = key_index(row, col);
                let ghost keys_before = keys@;
                let pressed: bool = self.hardware.read_key(row, col);
                keys[idx as usize] = pressed;
                proof {
                    let n = row * KEY_COLS + col;
                    assert(key_scan(keys@, n + 1) =~= key_scan(keys_before, n).push(
                        HwCall::ReadKey { row, col, pressed },
                    ));
                }
                col += 1;
            }
            row += 1;
        }

        let ghost trace_keys = self.hardware.brkbx_view().trace;
        let mut adc = [0u16; CHANNEL_COUNT];
        adc[KNOB1 as usize] = self.hardware.read_adc_raw(KNOB1);
        adc[KNOB2 as usize] = self.hardware.read_adc_raw(KNOB2);
        adc[KNOB3 as usize] = self.hardware.read_adc_raw(KNOB3);
        adc[KNOB4 as usize] = self.hardware.read_adc_raw(KNOB4);
        adc[FADER1 as usize] = self.hardware.read_adc_raw(FADER1);
        adc[FADER2 as usize] = self.hardware.read_adc_raw(FADER2);
        adc[FADER3 as usize] = self.hardware.read_adc_raw(FADER3);
        adc[FADER4 as usize] = self.hardware.read_adc_raw(FADER4);
        adc[JOY1_X as usize] = self.hardware.read_adc_raw(JOY1_X);
        adc[JOY1_Y as usize] = self.hardware.read_adc_raw(JOY1_Y);
        let joystick1_sel: bool = self.hardware.read_joystick1_sel();
        adc[JOY2_X as usize] = self.hardware.read_adc_raw(JOY2_X);
        adc[JOY2_Y as usize] = self.hardware.read_adc_raw(JOY2_Y);
        let joystick2_sel: bool = self.hardware.read_joystick2_sel();
        let rotary1_delta: i32 = self.hardware.rotary1_delta();
        let rotary2_delta: i32 = self.hardware.rotary2_delta();
        let rotary1_button: bool = self.hardware.read_rotary1_button();
        let rotary2_button: bool = self.hardware.read_rotary2_button();

        let s: ControllerState = state_from_readings(
            keys,
            adc,
            joystick1_sel,
            joystick2_sel,
            rotary1_delta,
            rotary2_delta,
            rotary1_button,
            rotary2_button,
        );
        proof {
            assert(s.knobs[0] == adc[KNOB1 as int] && s.knobs[3] == adc[KNOB4 as int]);
            assert(s.sliders[0] == adc[FADER1 as int] && s.sliders[3] == adc[FADER4 as int]);
            assert(self.hardware.brkbx_view().trace == after_scan_pushes(trace_keys, s));
            lemma_poll_trace(trace0, s);
        }
        s
    }

    /// Drive the four function LEDs: SLOW, FLIP, HOLD, PLAY in that order,
    /// once each. Afterwards the hardware shows `leds`, its readings are as
    /// they were, and its trace has grown by exactly those four calls.
    fn set_leds(&mut self, leds: LedsState)
        ensures
            final(self).hardware().brkbx_view() == (BrkbxView {
                leds,
                trace: old(self).hardware().brkbx_view().trace + led_calls(leds),
                ..old(self).hardware().brkbx_view()
            }),
    {
        self.hardware.set_led_slow(leds.slow);
        self.hardware.set_led_flip(leds.flip);
        self.hardware.set_led_hold(leds.hold);
        self.hardware.set_led_play(leds.play);
    }
}

} // verus!
