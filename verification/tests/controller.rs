use std::cell::RefCell;
use std::rc::Rc;

use little_synth::brkbx::adc_channels;
use little_synth::brkbx::{state_from_readings, BrkbxHal, BrkbxHardware, BrkbxView, ADC_MAX};
use little_synth::brkbx_teensy41::BrkbxStub;
use little_synth::controller::Controller;
use little_synth::state::{key_index, ControllerState, LedsState, KEY_COLS, KEY_COUNT, KEY_ROWS};

#[test]
fn key_matrix_dimensions() {
    assert_eq!(KEY_ROWS, 4);
    assert_eq!(KEY_COLS, 5);
    assert_eq!(KEY_COUNT, 20);
    assert_eq!(ADC_MAX, 65535);
}

#[test]
fn key_index_is_row_major() {
    assert_eq!(key_index(0, 0), 0);
    assert_eq!(key_index(0, 4), 4);
    assert_eq!(key_index(1, 0), 5);
    assert_eq!(key_index(2, 3), 13);
    assert_eq!(key_index(3, 4), 19);
    let mut seen = [false; KEY_COUNT];
    for r in 0..KEY_ROWS as u8 {
        for c in 0..KEY_COLS as u8 {
            let i = key_index(r, c) as usize;
            assert!(!seen[i]);
            seen[i] = true;
        }
    }
    assert!(seen.iter().all(|&b| b));
}

#[test]
fn key_at_reads_row_major_slot() {
    let mut s = ControllerState::default();
    s.keys[13] = true;
    assert!(s.key_at(2, 3));
    assert!(!s.key_at(3, 2));
}

#[test]
fn default_state_is_idle() {
    let s = ControllerState::default();
    assert!(s.keys.iter().all(|&k| !k));
    assert_eq!(s.knobs, [0; 4]);
    assert_eq!(s.sliders, [0; 4]);
    assert_eq!(s.rotary1_delta, 0);
    assert_eq!(s.rotary2_delta, 0);
    assert!(!s.rotary1_button && !s.rotary2_button);
    assert!(!s.joystick1.pressed && !s.joystick2.pressed);
}

#[test]
fn readings_map_to_channels() {
    let mut keys = [false; KEY_COUNT];
    keys[7] = true;
    let mut adc = [0u16; adc_channels::CHANNEL_COUNT];
    for (i, a) in adc.iter_mut().enumerate() {
        *a = 100 + i as u16;
    }
    let s = state_from_readings(keys, adc, true, false, -3, 5, false, true);
    assert_eq!(s.keys, keys);
    assert_eq!(s.knobs, [100, 101, 102, 103]);
    assert_eq!(s.sliders, [106, 107, 108, 109]);
    assert_eq!((s.joystick1.x, s.joystick1.y, s.joystick1.pressed), (104, 105, true));
    assert_eq!((s.joystick2.x, s.joystick2.y, s.joystick2.pressed), (110, 111, false));
    assert_eq!(s.rotary1_delta, -3);
    assert_eq!(s.rotary2_delta, 5);
    assert!(!s.rotary1_button);
    assert!(s.rotary2_button);
}

#[test]
fn stub_polls_default_state() {
    let mut hal = BrkbxHal::new(BrkbxStub::default());
    let s = hal.poll();
    assert!(s.keys.iter().all(|&k| !k));
    assert_eq!(s.knobs, [0; 4]);
    assert_eq!(s.sliders, [0; 4]);
    assert_eq!(s.rotary1_delta, 0);
    assert_eq!(s.rotary2_delta, 0);
    hal.set_leds(LedsState { slow: true, flip: false, hold: true, play: false });
}

/// Hardware double: a fixed key pattern and ADC values; logs key reads and LED writes.
struct FakeHardware {
    pressed: Vec<(u8, u8)>,
    log: Rc<RefCell<Vec<String>>>,
}

impl BrkbxHardware for FakeHardware {
    fn brkbx_view(&self) -> BrkbxView {
        unreachable!()
    }
    fn read_key(&mut self, row: u8, col: u8) -> bool {
        self.log.borrow_mut().push(format!("key {} {}", row, col));
        self.pressed.contains(&(row, col))
    }
    fn read_adc_raw(&mut self, channel: u8) -> u16 {
        1000 * channel as u16 + 1
    }
    fn read_joystick1_sel(&mut self) -> bool {
        true
    }
    fn read_joystick2_sel(&mut self) -> bool {
        false
    }
    fn read_rotary1_button(&mut self) -> bool {
        false
    }
    fn read_rotary2_button(&mut self) -> bool {
        true
    }
    fn rotary1_delta(&mut self) -> i32 {
        -2
    }
    fn rotary2_delta(&mut self) -> i32 {
        7
    }
    fn set_led_slow(&mut self, on: bool) {
        self.log.borrow_mut().push(format!("slow {}", on));
    }
    fn set_led_flip(&mut self, on: bool) {
        self.log.borrow_mut().push(format!("flip {}", on));
    }
    fn set_led_hold(&mut self, on: bool) {
        self.log.borrow_mut().push(format!("hold {}", on));
    }
    fn set_led_play(&mut self, on: bool) {
        self.log.borrow_mut().push(format!("play {}", on));
    }
}

#[test]
fn poll_reads_every_key_and_channel() {
    let log = Rc::new(RefCell::new(Vec::new()));
    let hw = FakeHardware { pressed: vec![(0, 1), (3, 4)], log: log.clone() };
    let mut hal = BrkbxHal::new(hw);
    let s = hal.poll();
    assert!(s.key_at(0, 1));
    assert!(s.key_at(3, 4));
    assert_eq!(s.keys.iter().filter(|&&k| k).count(), 2);
    assert_eq!(s.knobs, [1, 1001, 2001, 3001]);
    assert_eq!(s.sliders, [6001, 7001, 8001, 9001]);
    assert_eq!((s.joystick1.x, s.joystick1.y, s.joystick1.pressed), (4001, 5001, true));
    assert_eq!((s.joystick2.x, s.joystick2.y, s.joystick2.pressed), (10001, 11001, false));
    assert_eq!((s.rotary1_delta, s.rotary2_delta), (-2, 7));
    assert_eq!((s.rotary1_button, s.rotary2_button), (false, true));
    // The matrix is scanned row by row, each cell once.
    let reads = log.borrow();
    assert_eq!(reads.len(), KEY_COUNT);
    assert_eq!(reads[0], "key 0 0");
    assert_eq!(reads[5], "key 1 0");
    assert_eq!(reads[19], "key 3 4");
}

#[test]
fn set_leds_drives_all_four_in_order() {
    let log = Rc::new(RefCell::new(Vec::new()));
    let hw = FakeHardware { pressed: vec![], log: log.clone() };
    let mut hal = BrkbxHal::new(hw);
    hal.set_leds(LedsState { slow: false, flip: true, hold: false, play: true });
    assert_eq!(*log.borrow(), vec!["slow false", "flip true", "hold false", "play true"]);
}
