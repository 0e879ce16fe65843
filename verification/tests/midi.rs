use little_synth::midi::MidiMessage;

#[test]
fn parse_note_on() {
    let m = MidiMessage::from_bytes([0x90, 60, 100]);
    assert_eq!(m, Some(MidiMessage::NoteOn(0, 60, 100)));
}

#[test]
fn parse_note_off() {
    let m = MidiMessage::from_bytes([0x80, 60, 0]);
    assert_eq!(m, Some(MidiMessage::NoteOff(0, 60, 0)));
}

#[test]
fn parse_cc() {
    let m = MidiMessage::from_bytes([0xB1, 7, 64]);
    assert_eq!(m, Some(MidiMessage::ControlChange(1, 7, 64)));
}

#[test]
fn parse_pitch_bend() {
    // LSB=0, MSB=64 => 14-bit value = (64<<7)|0 = 8192
    let m = MidiMessage::from_bytes([0xE0, 0, 64]);
    assert_eq!(m, Some(MidiMessage::PitchBend(0, 8192)));
}

#[test]
fn data_bytes() {
    assert_eq!(MidiMessage::data_bytes(0x90), 2);
    assert_eq!(MidiMessage::data_bytes(0xC0), 1);
}

#[test]
fn parse_each_channel_message_kind() {
    assert_eq!(MidiMessage::from_bytes([0xA2, 61, 33]), Some(MidiMessage::PolyPressure(2, 61, 33)));
    assert_eq!(MidiMessage::from_bytes([0xC5, 12, 99]), Some(MidiMessage::ProgramChange(5, 12)));
    assert_eq!(MidiMessage::from_bytes([0xDF, 70, 1]), Some(MidiMessage::ChannelPressure(15, 70)));
    assert_eq!(MidiMessage::from_bytes([0x9F, 127, 127]), Some(MidiMessage::NoteOn(15, 127, 127)));
}

#[test]
fn parse_pitch_bend_extremes() {
    assert_eq!(MidiMessage::from_bytes([0xE3, 0x7F, 0x7F]), Some(MidiMessage::PitchBend(3, 16383)));
    assert_eq!(MidiMessage::from_bytes([0xE0, 0x01, 0x00]), Some(MidiMessage::PitchBend(0, 1)));
    // An 8-bit LSB overlaps the MSB's bits: (1 << 7) | 0x80 == 0x80.
    assert_eq!(MidiMessage::from_bytes([0xE0, 0x80, 0x01]), Some(MidiMessage::PitchBend(0, 0x80)));
}

#[test]
fn non_channel_status_is_not_parsed() {
    assert_eq!(MidiMessage::from_bytes([0xF0, 1, 2]), None);
    assert_eq!(MidiMessage::from_bytes([0xF8, 0, 0]), None);
    assert_eq!(MidiMessage::from_bytes([0x40, 60, 100]), None);
}

#[test]
fn data_bytes_per_status() {
    for s in [0x80u8, 0x91, 0xA2, 0xB3, 0xEF] {
        assert_eq!(MidiMessage::data_bytes(s), 2);
    }
    assert_eq!(MidiMessage::data_bytes(0xD7), 1);
    for s in [0x00u8, 0x7F, 0xF0, 0xF7, 0xF8, 0xFF] {
        assert_eq!(MidiMessage::data_bytes(s), 0);
    }
}
