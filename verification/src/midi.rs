//! MIDI message types and parsing. Transport (UART) is handled in `midi_uart`.

use vstd::prelude::*;

verus! {

/// Standard MIDI channel (0–15).
pub type Channel = u8;

/// Note number (0–127).
pub type NoteNumber = u8;

/// Velocity (0–127).
pub type Velocity = u8;

/// Control change number (0–127).
pub type Controller = u8;

/// Control change value (0–127).
pub type ControlValue = u8;

/// Parsed MIDI message (no heap).
#[derive(Debug, Clone, Copy, PartialEq, Eq, Structural)]
pub enum MidiMessage {
    /// Note off: channel, note, velocity
    NoteOff(Channel, NoteNumber, Velocity),
    /// Note on: channel, note, velocity (0 = note off)
    NoteOn(Channel, NoteNumber, Velocity),
    /// Polyphonic key pressure
    PolyPressure(Channel, NoteNumber, u8),
    /// Control change
    ControlChange(Channel, Controller, ControlValue),
    /// Program change
    ProgramChange(Channel, u8),
    /// Channel pressure
    ChannelPressure(Channel, u8),
    /// Pitch bend (14-bit, LSB then MSB in raw; here as 0..16383)
    PitchBend(Channel, u16),
    /// System real-time / common handled by transport
    SysExStart,
    /// Quarter frame, Song Select, etc. (payload in transport)
    SysExEnd,
    /// Raw bytes for sys ex (firmware can buffer and pass)
    Other(u8, u8, u8),
}

/// The channel carried in a status byte: its low nibble.
pub open spec fn status_channel(status: u8) -> u8 {
    (status % 16) as u8
}

/// The command carried in a status byte: its high nibble (0x8 for note off, ...).
pub open spec fn status_command(status: u8) -> u8 {
    (status / 16) as u8
}

/// The pitch-bend value assembled from the two data bytes: the MSB shifted
/// left by seven bits, combined (bitwise or) with the LSB.
pub open spec fn pitch_bend_value(lsb: u8, msb: u8) -> u16 {
    (((msb as u16) << 7u16) | (lsb as u16)) as u16
}

/// The message that three raw bytes (status, data1, data2) decode to.
pub open spec fn spec_from_bytes(status: u8, d1: u8, d2: u8) -> Option<MidiMessage> {
    let ch: u8 = status_channel(status);
    let cmd: u8 = status_command(status);
    if cmd == 0x8 {
        Some(MidiMessage::NoteOff(ch, d1, d2))
    } else if cmd == 0x9 {
        Some(MidiMessage::NoteOn(ch, d1, d2))
    } else if cmd == 0xA {
        Some(MidiMessage::PolyPressure(ch, d1, d2))
    } else if cmd == 0xB {
        Some(MidiMessage::ControlChange(ch, d1, d2))
    } else if cmd == 0xC {
        Some(MidiMessage::ProgramChange(ch, d1))
    } else if cmd == 0xD {
        Some(MidiMessage::ChannelPressure(ch, d1))
    } else if cmd == 0xE {
        Some(MidiMessage::PitchBend(ch, pitch_bend_value(d1, d2)))
    } else {
        None
    }
}

/// Number of data bytes that follow a status byte: 1 for program change and
/// channel pressure, 2 for the other channel messages, 0 otherwise.
pub open spec fn spec_data_bytes(status: u8) -> u8 {
    let cmd: u8 = status_command(status);
    if cmd == 0xC || cmd == 0xD {
        1
    } else if cmd == 0x8 || cmd == 0x9 || cmd == 0xA || cmd == 0xB || cmd == 0xE {
        2
    } else {
        0
    }
}

impl MidiMessage {
    /// Parse three bytes (status + data1 + data2) into a message.
    /// Returns None if not a known channel message.
    pub fn from_bytes(m: [u8; 3]) -> (r: Option<MidiMessage>)
        ensures
            r == spec_from_bytes(m[0], m[1], m[2]),
            r is Some <==> 0x80 <= m[0] < 0xF0,
            r matches Some(msg) ==> message_channel(msg) == Some((m[0] % 16) as u8),
            m[0] / 16 == 8 ==> r == Some(MidiMessage::NoteOff((m[0] % 16) as u8, m[1], m[2])),
            m[0] / 16 == 9 ==> r == Some(MidiMessage::NoteOn((m[0] % 16) as u8, m[1], m[2])),
            m[0] / 16 == 10 ==> r == Some(
                MidiMessage::PolyPressure((m[0] % 16) as u8, m[1], m[2]),
            ),
            m[0] / 16 == 11 ==> r == Some(
                MidiMessage::ControlChange((m[0] % 16) as u8, m[1], m[2]),
            ),
            m[0] / 16 == 12 ==> r == Some(MidiMessage::ProgramChange((m[0] % 16) as u8, m[1])),
            m[0] / 16 == 13 ==> r == Some(MidiMessage::ChannelPressure((m[0] % 16) as u8, m[1])),
    {
        let status: u8 = m[0];
        let channel: u8 = status & 0x0F;
        let cmd: u8 = status & 0xF0;
        let d1: u8 = m[1];
        let d2: u8 = m[2];
        assert(channel == status % 16) by (bit_vector)
            requires
                channel == status & 0x0F,
        ;
        assert(cmd == (status / 16) * 16) by (bit_vector)
            requires
                cmd == status & 0xF0,
        ;
        match cmd {
            0x80 => Some(MidiMessage::NoteOff(channel, d1, d2)),
            0x90 => Some(MidiMessage::NoteOn(channel, d1, d2)),
            0xA0 => Some(MidiMessage::PolyPressure(channel, d1, d2)),
            0xB0 => Some(MidiMessage::ControlChange(channel, d1, d2)),
            0xC0 => Some(MidiMessage::ProgramChange(channel, d1)),
            0xD0 => Some(MidiMessage::ChannelPressure(channel, d1)),
            0xE0 => Some(MidiMessage::PitchBend(channel, ((d2 as u16) << 7) | d1 as u16)),
            _ => None,
        }
    }

    /// Number of data bytes following status for this message type (1 or 2; 0 if none).
    pub fn data_bytes(status: u8) -> (r: u8)
        ensures
            r == spec_data_bytes(status),
            (status / 16 == 12 || status / 16 == 13) ==> r == 1,
            (status / 16 == 8 || status / 16 == 9 || status / 16 == 10 || status / 16 == 11
                || status / 16 == 14) ==> r == 2,
            (status < 0x80 || status >= 0xF0) ==> r == 0,
    {
        let cmd: u8 = status & 0xF0;
        assert(cmd == (status / 16) * 16) by (bit_vector)
            requires
                cmd == status & 0xF0,
        ;
        match cmd {
            0xC0 | 0xD0 => 1,
            0x80 | 0x90 | 0xA0 | 0xB0 | 0xE0 => 2,
            _ => 0,
        }
    }
}

/// A status byte announces data bytes exactly when it decodes to a channel
/// message; one-data-byte messages do not depend on the second data byte;
/// the decoded channel is the status byte's low nibble.
pub proof fn lemma_decodable_iff_has_data(status: u8, d1: u8, d2: u8, other: u8)
    ensures
        spec_data_bytes(status) != 0 <==> spec_from_bytes(status, d1, d2) is Some,
        spec_data_bytes(status) == 1 ==> spec_from_bytes(status, d1, d2) == spec_from_bytes(
            status,
            d1,
            other,
        ),
        spec_from_bytes(status, d1, d2) is Some ==> 0x80 <= status < 0xF0,
{
}

/// With a 7-bit LSB the pitch-bend value is `msb * 128 + lsb`, and with 7-bit
/// data bytes it lies in 0..16384.
pub proof fn lemma_pitch_bend_arith(lsb: u8, msb: u8)
    requires
        lsb < 128,
    ensures
        pitch_bend_value(lsb, msb) == msb * 128 + lsb,
        msb < 128 ==> pitch_bend_value(lsb, msb) < 16384,
{
    let v: u16 = pitch_bend_value(lsb, msb);
    assert(v == msb * 128 + lsb) by (bit_vector)
        requires
            lsb < 128,
            v == (((msb as u16) << 7u16) | (lsb as u16)) as u16,
    ;
}

/// The decoded message, field by field: the high nibble of the status picks
/// the kind (0x8 note off, 0x9 note on, 0xA poly pressure, 0xB control
/// change, 0xC program change, 0xD channel pressure, 0xE pitch bend), the low
/// nibble is the channel, the data bytes are carried unchanged in order (one
/// for program change and channel pressure), and every other status byte
/// decodes to nothing.
pub proof fn lemma_from_bytes_fields(status: u8, d1: u8, d2: u8)
    ensures
        status / 16 == 8 ==> spec_from_bytes(status, d1, d2) == Some(
            MidiMessage::NoteOff((status % 16) as u8, d1, d2),
        ),
        status / 16 == 9 ==> spec_from_bytes(status, d1, d2) == Some(
            MidiMessage::NoteOn((status % 16) as u8, d1, d2),
        ),
        status / 16 == 10 ==> spec_from_bytes(status, d1, d2) == Some(
            MidiMessage::PolyPressure((status % 16) as u8, d1, d2),
        ),
        status / 16 == 11 ==> spec_from_bytes(status, d1, d2) == Some(
            MidiMessage::ControlChange((status % 16) as u8, d1, d2),
        ),
        status / 16 == 12 ==> spec_from_bytes(status, d1, d2) == Some(
            MidiMessage::ProgramChange((status % 16) as u8, d1),
        ),
        status / 16 == 13 ==> spec_from_bytes(status, d1, d2) == Some(
            MidiMessage::ChannelPressure((status % 16) as u8, d1),
        ),
        status / 16 == 14 && d1 < 128 ==> spec_from_bytes(status, d1, d2) == Some(
            MidiMessage::PitchBend((status % 16) as u8, (d2 * 128 + d1) as u16),
        ),
        status / 16 == 14 ==> spec_from_bytes(status, d1, d2) == Some(
            MidiMessage::PitchBend(
                (status % 16) as u8,
                (d2 * 128 + d1 - (if d1 >= 128 && d2 % 2 == 1 {
                    128int
                } else {
                    0int
                })) as u16,
            ),
        ),
        (status < 0x80 || status >= 0xF0) ==> spec_from_bytes(status, d1, d2) is None,
{
    if status / 16 == 14 {
        lemma_pitch_bend_any(d1, d2);
        if d1 < 128 {
            lemma_pitch_bend_arith(d1, d2);
        }
    }
}

/// The channel of a decoded message is the status byte's low nibble, and
/// two status bytes with the same high nibble decode the same data bytes to
/// the same kind of message, differing only in the channel.
pub proof fn lemma_from_bytes_channel(s: u8, t: u8, d1: u8, d2: u8)
    ensures
        spec_from_bytes(s, d1, d2) matches Some(m) ==> message_channel(m) == Some(
            (s % 16) as u8,
        ),
        s / 16 == t / 16 ==> match (spec_from_bytes(s, d1, d2), spec_from_bytes(t, d1, d2)) {
            (Some(a), Some(b)) => with_channel(a, (t % 16) as u8) == b,
            (None, None) => true,
            _ => false,
        },
{
}

/// The channel a channel message is addressed to (None for the others).
pub open spec fn message_channel(m: MidiMessage) -> Option<u8> {
    match m {
        MidiMessage::NoteOff(ch, _, _) => Some(ch),
        MidiMessage::NoteOn(ch, _, _) => Some(ch),
        MidiMessage::PolyPressure(ch, _, _) => Some(ch),
        MidiMessage::ControlChange(ch, _, _) => Some(ch),
        MidiMessage::ProgramChange(ch, _) => Some(ch),
        MidiMessage::ChannelPressure(ch, _) => Some(ch),
        MidiMessage::PitchBend(ch, _) => Some(ch),
        _ => None,
    }
}

/// The same message addressed to channel `ch` (others unchanged).
pub open spec fn with_channel(m: MidiMessage, ch: u8) -> MidiMessage {
    match m {
        MidiMessage::NoteOff(_, a, b) => MidiMessage::NoteOff(ch, a, b),
        MidiMessage::NoteOn(_, a, b) => MidiMessage::NoteOn(ch, a, b),
        MidiMessage::PolyPressure(_, a, b) => MidiMessage::PolyPressure(ch, a, b),
        MidiMessage::ControlChange(_, a, b) => MidiMessage::ControlChange(ch, a, b),
        MidiMessage::ProgramChange(_, a) => MidiMessage::ProgramChange(ch, a),
        MidiMessage::ChannelPressure(_, a) => MidiMessage::ChannelPressure(ch, a),
        MidiMessage::PitchBend(_, v) => MidiMessage::PitchBend(ch, v),
        other => other,
    }
}

/// The number of data bytes a status announces depends only on its high
/// nibble: exactly 1 for every 0xCn and 0xDn, exactly 2 for every 0x8n,
/// 0x9n, 0xAn, 0xBn and 0xEn, and 0 for data bytes and system bytes.
pub proof fn lemma_data_bytes_by_nibble(s: u8, t: u8)
    ensures
        s / 16 == t / 16 ==> spec_data_bytes(s) == spec_data_bytes(t),
        (s / 16 == 12 || s / 16 == 13) ==> spec_data_bytes(s) == 1,
        (s / 16 == 8 || s / 16 == 9 || s / 16 == 10 || s / 16 == 11 || s / 16 == 14)
            ==> spec_data_bytes(s) == 2,
        (s < 0x80 || s >= 0xF0) ==> spec_data_bytes(s) == 0,
{
}

/// The count a status announces is the number of data bytes its decoded
/// message carries: 1 exactly for program change and channel pressure, 2
/// exactly for note off, note on, poly pressure, control change and pitch
/// bend, and 0 exactly when nothing is decoded.
pub proof fn lemma_data_bytes_match_message(s: u8, d1: u8, d2: u8)
    ensures
        spec_data_bytes(s) == 1 <==> (spec_from_bytes(s, d1, d2) matches Some(m) && (
        m is ProgramChange || m is ChannelPressure)),
        spec_data_bytes(s) == 2 <==> (spec_from_bytes(s, d1, d2) matches Some(m) && (m is NoteOff
            || m is NoteOn || m is PolyPressure || m is ControlChange || m is PitchBend)),
        spec_data_bytes(s) == 0 <==> spec_from_bytes(s, d1, d2) is None,
{
}

/// The pitch-bend value for any pair of data bytes: the MSB times 128 plus
/// the LSB, where an LSB with its top bit set shares bit 7 with the MSB's
/// lowest bit (the two are or-ed, so an odd MSB absorbs that bit).
pub proof fn lemma_pitch_bend_any(lsb: u8, msb: u8)
    ensures
        pitch_bend_value(lsb, msb) == msb * 128 + lsb - (if lsb >= 128 && msb % 2 == 1 {
            128int
        } else {
            0int
        }),
{
    let v = pitch_bend_value(lsb, msb);
    if lsb >= 128 && msb % 2 == 1 {
        assert(v == msb * 128 + lsb - 128) by (bit_vector)
            requires
                lsb >= 128,
                msb % 2 == 1,
                v == (((msb as u16) << 7u16) | (lsb as u16)) as u16,
        ;
    } else {
        assert(v == msb * 128 + lsb) by (bit_vector)
            requires
                lsb < 128 || msb % 2 == 0,
                v == (((msb as u16) << 7u16) | (lsb as u16)) as u16,
        ;
    }
}

} // verus!
