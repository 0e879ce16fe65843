//! MIDI over UART: the byte-stream parser that turns received bytes into
//! [`MidiMessage`]s. The UART itself (31250 baud) is driven outside the library.

use vstd::prelude::*;
use crate::midi::{MidiMessage, spec_data_bytes, spec_from_bytes};

verus! {

/// MIDI standard baud rate.
pub const MIDI_BAUD: u32 = 31250;

/// The parser state that persists between bytes: the pending status byte,
/// the data bytes gathered so far and their count.
pub type ParserState = (Option<u8>, Seq<u8>, u8);

/// A real-time byte (0xF8–0xFF): clock, start, stop, active sensing, reset.
pub open spec fn is_real_time(byte: u8) -> bool {
    byte >= 0xF8
}

/// One step of the parser: the state after `byte` and the message it completes.
///
/// - A real-time byte (0xF8–0xFF) leaves the state as it is and completes nothing.
/// - Any other status byte (0x80–0xF7) becomes the pending status and clears the count.
/// - A data byte without a pending status is ignored.
/// - Otherwise the data byte is stored at the current count. Once as many
///   data bytes as the status needs are present, the message is decoded and
///   the count cleared; a channel status stays pending (running status), so
///   the next data bytes form another message with it, while a status that
///   takes no data bytes is dropped.
pub open spec fn parse_step(st: ParserState, byte: u8) -> (ParserState, Option<MidiMessage>) {
    let (status, data, len) = st;
    if is_real_time(byte) {
        (st, None)
    } else if byte >= 0x80 {
        ((Some(byte), data, 0u8), None)
    } else {
        match status {
            None => (st, None),
            Some(s) => {
                let d = data.update(len as int, byte);
                if len + 1 >= spec_data_bytes(s) {
                    let pending = if spec_data_bytes(s) == 0 {
                        None
                    } else {
                        status
                    };
                    ((pending, d, 0u8), spec_from_bytes(s, d[0], d[1]))
                } else {
                    ((status, d, (len + 1) as u8), None)
                }
            },
        }
    }
}

/// The parser state is usable: two data slots, at most one of them filled
/// between calls.
pub open spec fn valid_state(st: ParserState) -> bool {
    st.1.len() == 2 && st.2 < 2
}

/// Parse a single status or data byte from the UART. Call with bytes as they
/// arrive; returns Some when a complete 1- or 2-data-byte message is parsed.
/// Real-time bytes (0xF8–0xFF) can be handled separately and don't break
/// running status: they leave the parser state untouched. After a complete
/// channel message its status stays pending, so further data bytes reuse it.
pub fn parse_midi_byte(
    status: &mut Option<u8>,
    data: &mut [u8; 2],
    data_len: &mut u8,
    byte: u8,
) -> (msg: Option<MidiMessage>)
    requires
        byte >= 0x80 || old(status).is_none() || *old(data_len) < 2,
    ensures
        ((*final(status), final(data)@, *final(data_len)), msg) == parse_step(
            (*old(status), old(data)@, *old(data_len)),
            byte,
        ),
        *old(data_len) < 2 ==> *final(data_len) < 2,
{
    if byte >= 0xF8 {
        return None;  // real-time: handled by the transport, state untouched
    }
    if byte >= 0x80 {
        *status = Some(byte);
        *data_len = 0;
        return None;
    }
    let s: u8 = match *status {
        Some(x) => x,
        None => return None,
    };
    let need: u8 = MidiMessage::data_bytes(s);
    data[*data_len as usize] = byte;
    *data_len += 1;
    if *data_len >= need {
        if need == 0 {
            *status = None;
        }
        *data_len = 0;
        return MidiMessage::from_bytes([s, data[0], data[1]]);
    }
    None
}

/// Feeding a two-data-byte status followed by two data bytes, from any usable
/// parser state, yields nothing, nothing, then exactly the message that the
/// three bytes decode to, and leaves that status pending with an empty count.
pub proof fn lemma_two_data_byte_message(st: ParserState, s: u8, d1: u8, d2: u8)
    requires
        valid_state(st),
        s >= 0x80,
        !is_real_time(s),
        spec_data_bytes(s) == 2,
        d1 < 0x80,
        d2 < 0x80,
    ensures
        ({
            let (st1, m1) = parse_step(st, s);
            let (st2, m2) = parse_step(st1, d1);
            let (st3, m3) = parse_step(st2, d2);
            &&& m1 is None
            &&& m2 is None
            &&& m3 == spec_from_bytes(s, d1, d2)
            &&& m3 is Some
            &&& st3.0 == Some(s)
            &&& st3.2 == 0
            &&& valid_state(st3)
        }),
{
    let (st1, m1) = parse_step(st, s);
    let (st2, m2) = parse_step(st1, d1);
    let (st3, m3) = parse_step(st2, d2);
    assert(st3.1 =~= seq![d1, d2]);
}

/// Feeding a one-data-byte status (program change, channel pressure) followed
/// by one data byte yields nothing, then the message decoded from the status
/// and that byte (whatever the other data slot holds), and leaves that status
/// pending.
pub proof fn lemma_one_data_byte_message(st: ParserState, s: u8, d1: u8, any: u8)
    requires
        valid_state(st),
        s >= 0x80,
        !is_real_time(s),
        spec_data_bytes(s) == 1,
        d1 < 0x80,
    ensures
        ({
            let (st1, m1) = parse_step(st, s);
            let (st2, m2) = parse_step(st1, d1);
            &&& m1 is None
            &&& m2 == spec_from_bytes(s, d1, any)
            &&& m2 is Some
            &&& st2.0 == Some(s)
            &&& st2.2 == 0
            &&& valid_state(st2)
        }),
{
}

/// Running status: with a channel status pending and no data byte gathered
/// (as after a complete message), data bytes alone form the next message
/// with that status, and the status stays pending.
pub proof fn lemma_running_status(st: ParserState, d1: u8, d2: u8)
    requires
        valid_state(st),
        st.0 is Some,
        spec_data_bytes(st.0->0) != 0,
        st.2 == 0,
        d1 < 0x80,
        d2 < 0x80,
    ensures
        spec_data_bytes(st.0->0) == 1 ==> ({
            let (st1, m1) = parse_step(st, d1);
            &&& m1 == spec_from_bytes(st.0->0, d1, d2)
            &&& st1.0 == st.0 && st1.2 == 0
        }),
        spec_data_bytes(st.0->0) == 2 ==> ({
            let (st1, m1) = parse_step(st, d1);
            let (st2, m2) = parse_step(st1, d2);
            &&& m1 is None
            &&& m2 == spec_from_bytes(st.0->0, d1, d2)
            &&& st2.0 == st.0 && st2.2 == 0
        }),
{
    let s = st.0->0;
    if spec_data_bytes(s) == 2 {
        let (st1, m1) = parse_step(st, d1);
        let (st2, m2) = parse_step(st1, d2);
        assert(st2.1 =~= seq![d1, d2]);
    }
}

/// Real-time bytes are transparent: from any state a real-time byte
/// completes nothing and leaves status, data and count as they were, so a
/// message in progress, or a running status, is kept.
pub proof fn lemma_real_time_transparent(st: ParserState, byte: u8)
    requires
        is_real_time(byte),
    ensures
        parse_step(st, byte) == (st, Option::<MidiMessage>::None),
{
}

/// A status byte never completes a message; a data byte with no pending
/// status is ignored and leaves the state unchanged; and every step keeps a
/// usable state usable.
pub proof fn lemma_parse_step_basics(st: ParserState, byte: u8)
    requires
        valid_state(st),
    ensures
        byte >= 0x80 ==> parse_step(st, byte).1 is None,
        byte >= 0x80 && !is_real_time(byte) ==> parse_step(st, byte).0.0 == Some(byte),
        byte < 0x80 && st.0 is None ==> parse_step(st, byte) == (st, Option::<MidiMessage>::None),
        valid_state(parse_step(st, byte).0),
{
}

} // verus!
