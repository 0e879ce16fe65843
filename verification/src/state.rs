//! Controller state and key matrix layout.
//!
//! Key matrix is 4 rows × 5 cols = 20 buttons, indexable by (row, col) or by flat index.
//! Storage is row-major: index = row * KEY_COLS + col.
//!
//! Analog inputs (knobs, faders, joystick axes) are held as the raw 16-bit ADC
//! readings; full scale is [`crate::brkbx::ADC_MAX`].

use vstd::prelude::*;

verus! {

/// Index into the key matrix (0..KEY_COUNT). Row-major: row * KEY_COLS + col.
pub type KeyIndex = u8;

/// Number of key matrix rows.
pub const KEY_ROWS: usize = 4;

/// Number of key matrix columns.
pub const KEY_COLS: usize = 5;

/// Number of keys in the matrix (KEY_ROWS * KEY_COLS).
pub const KEY_COUNT: usize = KEY_ROWS * KEY_COLS;

/// Row-major flat index of (row, col).
pub open spec fn spec_key_index(row: int, col: int) -> int {
    row * KEY_COLS + col
}

/// Flat index for the button at (row, col); row must be below KEY_ROWS and
/// col below KEY_COLS.
pub fn key_index(row: u8, col: u8) -> (idx: KeyIndex)
    requires
        row < KEY_ROWS,
        col < KEY_COLS,
    ensures
        idx == spec_key_index(row as int, col as int),
        idx < KEY_COUNT,
        idx as int / (KEY_COLS as int) == row,
        idx as int % (KEY_COLS as int) == col,
{
    let cols: KeyIndex = KEY_COLS as KeyIndex;
    assert(cols == KEY_COLS);
    row * cols + col
}

/// The row-major index is a bijection between the grid KEY_ROWS × KEY_COLS
/// and 0..KEY_COUNT: every cell maps into range, two cells share an index only
/// if they are the same cell, and every index is the index of the cell
/// (index / KEY_COLS, index % KEY_COLS).
pub proof fn lemma_key_index_bijective(r1: int, c1: int, r2: int, c2: int, i: int)
    ensures
        0 <= r1 < KEY_ROWS && 0 <= c1 < KEY_COLS ==> 0 <= spec_key_index(r1, c1) < KEY_COUNT,
        0 <= r1 < KEY_ROWS && 0 <= c1 < KEY_COLS && 0 <= r2 < KEY_ROWS && 0 <= c2 < KEY_COLS
            && spec_key_index(r1, c1) == spec_key_index(r2, c2) ==> r1 == r2 && c1 == c2,
        0 <= i < KEY_COUNT ==> 0 <= i / (KEY_COLS as int) < KEY_ROWS && spec_key_index(
            i / (KEY_COLS as int),
            i % (KEY_COLS as int),
        ) == i,
{
}

/// Joystick position as raw ADC readings for x and y (the float view in
/// [-1, 1] is `raw / ADC_MAX * 2 - 1`); button pressed.
#[derive(Clone, Copy, Debug)]
pub struct JoystickState {
    pub x: u16,
    pub y: u16,
    pub pressed: bool,
}

/// LED state for the four function LEDs (SLOW, FLIP, HOLD, PLAY).
#[derive(Clone, Copy, Debug)]
pub struct LedsState {
    pub slow: bool,
    pub flip: bool,
    pub hold: bool,
    pub play: bool,
}

/// Full controller state from one poll.
#[derive(Clone, Copy, Debug)]
pub struct ControllerState {
    /// Key matrix: key down (true) or up (false). Row-major: index = row * KEY_COLS + col.
    pub keys: [bool; KEY_COUNT],
    /// Four knobs, raw ADC readings (the float view in [0, 1] is `raw / ADC_MAX`).
    pub knobs: [u16; 4],
    /// Four faders/sliders, raw ADC readings.
    pub sliders: [u16; 4],
    /// Joystick 1 (main).
    pub joystick1: JoystickState,
    /// Joystick 2.
    pub joystick2: JoystickState,
    /// Rotary 1 delta since last poll (e.g. sample/bank selector).
    pub rotary1_delta: i32,
    /// Rotary 2 delta since last poll (e.g. BPM).
    pub rotary2_delta: i32,
    /// Rotary 1 button pressed.
    pub rotary1_button: bool,
    /// Rotary 2 button pressed.
    pub rotary2_button: bool,
}

impl ControllerState {
    /// True if the button at (row, col) is pressed.
    pub fn key_at(&self, row: u8, col: u8) -> (pressed: bool)
        requires
            row < KEY_ROWS,
            col < KEY_COLS,
        ensures
            pressed == self.keys[spec_key_index(row as int, col as int)],
    {
        self.keys[key_index(row, col) as usize]
    }
}

impl Default for JoystickState {
    fn default() -> (s: Self)
        ensures
            s.x == 0 && s.y == 0 && !s.pressed,
    {
        JoystickState { x: 0, y: 0, pressed: false }
    }
}

impl Default for LedsState {
    fn default() -> (s: Self)
        ensures
            !s.slow && !s.flip && !s.hold && !s.play,
    {
        LedsState { slow: false, flip: false, hold: false, play: false }
    }
}

impl Default for ControllerState {
    /// No key pressed, every analog input at 0, no rotary motion, no button pressed.
    fn default() -> (s: Self)
        ensures
            forall|i: int| 0 <= i < KEY_COUNT ==> !s.keys[i],
            forall|i: int| 0 <= i < 4 ==> s.knobs[i] == 0 && s.sliders[i] == 0,
            s.joystick1.x == 0 && s.joystick1.y == 0 && !s.joystick1.pressed,
            s.joystick2.x == 0 && s.joystick2.y == 0 && !s.joystick2.pressed,
            s.rotary1_delta == 0 && s.rotary2_delta == 0,
            !s.rotary1_button && !s.rotary2_button,
    {
        Self {
            keys: [false; KEY_COUNT],
            knobs: [0; 4],
            sliders: [0; 4],
            joystick1: JoystickState::default(),
            joystick2: JoystickState::default(),
            rotary1_delta: 0,
            rotary2_delta: 0,
            rotary1_button: false,
            rotary2_button: false,
        }
    }
}

} // verus!
