use little_synth::midi::MidiMessage;
use little_synth::midi_uart::{parse_midi_byte, MIDI_BAUD};

struct Parser {
    status: Option<u8>,
    data: [u8; 2],
    len: u8,
}

impl Parser {
    fn new() -> Self {
        Parser { status: None, data: [0; 2], len: 0 }
    }

    fn feed(&mut self, byte: u8) -> Option<MidiMessage> {
        parse_midi_byte(&mut self.status, &mut self.data, &mut self.len, byte)
    }
}

#[test]
fn baud_rate() {
    assert_eq!(MIDI_BAUD, 31250);
}

#[test]
fn note_on_stream() {
    let mut p = Parser::new();
    assert_eq!(p.feed(0x90), None);
    assert_eq!(p.status, Some(0x90));
    assert_eq!(p.feed(60), None);
    assert_eq!(p.len, 1);
    assert_eq!(p.feed(100), Some(MidiMessage::NoteOn(0, 60, 100)));
    assert_eq!(p.status, Some(0x90));
    assert_eq!(p.len, 0);
}

#[test]
fn program_change_stream() {
    let mut p = Parser::new();
    assert_eq!(p.feed(0xC3), None);
    assert_eq!(p.feed(42), Some(MidiMessage::ProgramChange(3, 42)));
    assert_eq!(p.status, Some(0xC3));
}

#[test]
fn data_without_status_is_ignored() {
    let mut p = Parser::new();
    assert_eq!(p.feed(60), None);
    assert_eq!(p.status, None);
    assert_eq!(p.len, 0);
    assert_eq!(p.data, [0, 0]);
}

#[test]
fn running_status_after_message() {
    let mut p = Parser::new();
    p.feed(0xB0);
    p.feed(7);
    assert_eq!(p.feed(64), Some(MidiMessage::ControlChange(0, 7, 64)));
    // The status stays pending: further data bytes form new messages with it.
    assert_eq!(p.status, Some(0xB0));
    assert_eq!(p.feed(8), None);
    assert_eq!(p.feed(65), Some(MidiMessage::ControlChange(0, 8, 65)));
    let mut q = Parser::new();
    q.feed(0x90);
    q.feed(60);
    assert_eq!(q.feed(100), Some(MidiMessage::NoteOn(0, 60, 100)));
    q.feed(62);
    assert_eq!(q.feed(100), Some(MidiMessage::NoteOn(0, 62, 100)));
    q.feed(0xC2);
    assert_eq!(q.feed(5), Some(MidiMessage::ProgramChange(2, 5)));
    assert_eq!(q.feed(6), Some(MidiMessage::ProgramChange(2, 6)));
}

#[test]
fn real_time_bytes_do_not_break_a_message() {
    let mut p = Parser::new();
    assert_eq!(p.feed(0x90), None);
    assert_eq!(p.feed(60), None);
    for rt in [0xF8u8, 0xFA, 0xFC, 0xFE, 0xFF] {
        assert_eq!(p.feed(rt), None);
        assert_eq!(p.status, Some(0x90));
        assert_eq!(p.len, 1);
        assert_eq!(p.data[0], 60);
    }
    assert_eq!(p.feed(100), Some(MidiMessage::NoteOn(0, 60, 100)));
    // Before any status, a real-time byte leaves the parser idle.
    let mut q = Parser::new();
    assert_eq!(q.feed(0xF8), None);
    assert_eq!(q.status, None);
    assert_eq!(q.feed(60), None);
}

#[test]
fn new_status_restarts_message() {
    let mut p = Parser::new();
    p.feed(0x90);
    p.feed(60);
    assert_eq!(p.feed(0x80), None);
    assert_eq!(p.len, 0);
    assert_eq!(p.feed(61), None);
    assert_eq!(p.feed(0), Some(MidiMessage::NoteOff(0, 61, 0)));
}

#[test]
fn system_status_then_data_yields_nothing() {
    let mut p = Parser::new();
    assert_eq!(p.feed(0xF0), None);
    assert_eq!(p.feed(0x12), None);
    assert_eq!(p.status, None);
    assert_eq!(p.len, 0);
}

#[test]
fn pitch_bend_stream() {
    let mut p = Parser::new();
    p.feed(0xE1);
    p.feed(0x00);
    assert_eq!(p.feed(0x40), Some(MidiMessage::PitchBend(1, 8192)));
}
