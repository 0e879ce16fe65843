use little_synth::effects::{DelayLine, DELAY_MAX_SAMPLES};
use little_synth::envelope::EnvelopeStage;
use little_synth::filter::FilterType;
use little_synth::lfo::{LfoMode, LFO_MAX_NODES};

#[test]
fn envelope_stage_sequence() {
    let mut s = EnvelopeStage::Attack;
    s = s.after_advance(false);
    assert_eq!(s, EnvelopeStage::Attack);
    s = s.after_advance(true);
    assert_eq!(s, EnvelopeStage::Decay);
    s = s.after_advance(true);
    assert_eq!(s, EnvelopeStage::Sustain);
    // Sustain holds until release.
    assert_eq!(s.after_advance(true), EnvelopeStage::Sustain);
    assert_eq!(s.after_advance(false), EnvelopeStage::Sustain);
    let r = EnvelopeStage::Release;
    assert_eq!(r.after_advance(false), EnvelopeStage::Release);
    assert_eq!(r.after_advance(true), EnvelopeStage::Idle);
    assert_eq!(EnvelopeStage::Idle.after_advance(true), EnvelopeStage::Idle);
}

#[test]
fn lfo_mode_cycle_end() {
    assert!(LfoMode::Repeat.wraps_at_cycle_end());
    assert!(LfoMode::RetriggerOnKey.wraps_at_cycle_end());
    assert!(!LfoMode::Envelope.wraps_at_cycle_end());
    assert_eq!(LFO_MAX_NODES, 16);
}

#[test]
fn filter_types_are_distinct() {
    assert_ne!(FilterType::LowPass, FilterType::HighPass);
    assert_ne!(FilterType::HighPass, FilterType::BandPass);
}

#[test]
fn delay_line_reads_back_after_delay() {
    let mut line: DelayLine<i32> = DelayLine::new(0);
    assert_eq!(line.read_pos(0), 0);
    assert_eq!(line.read_pos(1), DELAY_MAX_SAMPLES - 1);
    for i in 1..=10 {
        line.push(i);
    }
    // The sample written d writes ago.
    assert_eq!(line.tap(1), 10);
    assert_eq!(line.tap(3), 8);
    assert_eq!(line.tap(10), 1);
    // Older than anything written: the fill value.
    assert_eq!(line.tap(11), 0);
}

#[test]
fn delay_line_clamps_long_delays() {
    let mut line: DelayLine<u8> = DelayLine::new(7);
    line.push(1);
    line.push(2);
    assert_eq!(line.read_pos(DELAY_MAX_SAMPLES - 1), line.read_pos(usize::MAX));
    assert_eq!(line.read_pos(DELAY_MAX_SAMPLES), line.read_pos(DELAY_MAX_SAMPLES - 1));
    // Delay 0 reads the slot about to be written: the oldest sample.
    assert_eq!(line.read_pos(0), 2);
    assert_eq!(line.tap(0), 7);
}

#[test]
fn delay_line_wraps_around() {
    let mut line: DelayLine<u32> = DelayLine::new(0);
    for i in 0..(DELAY_MAX_SAMPLES as u32 + 5) {
        line.push(i);
    }
    assert_eq!(line.read_pos(0), 5);
    assert_eq!(line.tap(1), DELAY_MAX_SAMPLES as u32 + 4);
    assert_eq!(line.tap(DELAY_MAX_SAMPLES - 1), 6);
}

use little_synth::lfo::LfoAdvance;

#[test]
fn lfo_advance_actions() {
    assert_eq!(LfoMode::Repeat.advance_action(true, true), LfoAdvance::Silent);
    assert_eq!(LfoMode::Envelope.advance_action(true, false), LfoAdvance::Silent);
    assert_eq!(LfoMode::Envelope.advance_action(false, false), LfoAdvance::HoldEnd);
    assert_eq!(LfoMode::Envelope.advance_action(false, true), LfoAdvance::Run);
    // The run flag only matters in Envelope mode.
    assert_eq!(LfoMode::Repeat.advance_action(false, false), LfoAdvance::Run);
    assert_eq!(LfoMode::RetriggerOnKey.advance_action(false, false), LfoAdvance::Run);
}

#[test]
fn lfo_run_flag_transitions() {
    assert!(!LfoMode::Envelope.running_after_cycle_end(true));
    assert!(LfoMode::Repeat.running_after_cycle_end(true));
    assert!(LfoMode::RetriggerOnKey.running_after_cycle_end(true));
    assert!(LfoMode::Envelope.running_after_retrigger(false));
    assert!(!LfoMode::Repeat.running_after_retrigger(false));
    assert!(LfoMode::Repeat.running_after_retrigger(true));
}
