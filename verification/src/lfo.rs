//! LFO run modes: retrigger on key, repeat, envelope (one-shot).
//!
//! The LFO's phase and node waveshaping are floating-point and live with the
//! firmware; this module decides what an advance does, what each mode does at
//! the end of a cycle, and whether the LFO runs after a cycle end or a
//! retrigger.

use vstd::prelude::*;

verus! {

/// LFO run mode.
#[derive(Debug, Clone, Copy, PartialEq, Eq, Structural)]
pub enum LfoMode {
    /// Restart phase from 0 on each key down.
    RetriggerOnKey,
    /// Continuous loop.
    Repeat,
    /// One-shot: run for duration then hold end value (like an envelope).
    Envelope,
}

/// What one advance of the LFO does.
#[derive(Debug, Clone, Copy, PartialEq, Eq, Structural)]
pub enum LfoAdvance {
    /// The period is not positive: the output is 0 and nothing changes.
    Silent,
    /// A stopped one-shot LFO: the output is the shape's end value and nothing changes.
    HoldEnd,
    /// The phase moves on by the elapsed fraction of the period.
    Run,
}

/// Max number of nodes for one LFO (no heap).
pub const LFO_MAX_NODES: usize = 16;

impl LfoMode {
    /// Whether the phase wraps back to the start when a cycle ends (true for
    /// RetriggerOnKey and Repeat). In Envelope mode the phase instead holds at
    /// the end and the LFO stops until it is retriggered.
    pub fn wraps_at_cycle_end(self) -> (wraps: bool)
        ensures
            wraps == (self != LfoMode::Envelope),
    {
        match self {
            LfoMode::RetriggerOnKey | LfoMode::Repeat => true,
            LfoMode::Envelope => false,
        }
    }

    /// What an advance does, given whether the period is not positive and
    /// whether the LFO is running: nothing without a positive period; a
    /// stopped Envelope-mode LFO holds its end value; otherwise the phase
    /// runs (the run flag matters only in Envelope mode).
    pub fn advance_action(self, period_nonpositive: bool, running: bool) -> (a: LfoAdvance)
        ensures
            a == (if period_nonpositive {
                LfoAdvance::Silent
            } else if self == LfoMode::Envelope && !running {
                LfoAdvance::HoldEnd
            } else {
                LfoAdvance::Run
            }),
    {
        if period_nonpositive {
            LfoAdvance::Silent
        } else if matches!(self, LfoMode::Envelope) && !running {
            LfoAdvance::HoldEnd
        } else {
            LfoAdvance::Run
        }
    }

    /// Whether the LFO runs after a cycle ends: an Envelope-mode LFO stops,
    /// the other modes keep their run flag.
    pub fn running_after_cycle_end(self, running: bool) -> (r: bool)
        ensures
            r == (self != LfoMode::Envelope && running),
    {
        match self {
            LfoMode::Envelope => false,
            _ => running,
        }
    }

    /// Whether the LFO runs after a retrigger (which also resets the phase to
    /// 0): an Envelope-mode LFO is restarted, the other modes keep their run flag.
    pub fn running_after_retrigger(self, running: bool) -> (r: bool)
        ensures
            r == (self == LfoMode::Envelope || running),
    {
        match self {
            LfoMode::Envelope => true,
            _ => running,
        }
    }
}

/// The run flag after a sequence of events on an LFO in mode `mode`: each
/// event is a cycle end (`false`) or a retrigger (`true`).
pub open spec fn running_after_events(mode: LfoMode, running: bool, events: Seq<bool>) -> bool
    decreases events.len(),
{
    if events.len() == 0 {
        running
    } else {
        let r = if events[0] {
            mode == LfoMode::Envelope || running
        } else {
            mode != LfoMode::Envelope && running
        };
        running_after_events(mode, r, events.drop_first())
    }
}

/// A running Repeat or RetriggerOnKey LFO never stops; an Envelope-mode LFO
/// that has stopped stays stopped, holding its end value, until a retrigger
/// restarts it.
pub proof fn lemma_run_flag(mode: LfoMode, running: bool, events: Seq<bool>)
    ensures
        mode != LfoMode::Envelope && running ==> running_after_events(mode, running, events),
        mode == LfoMode::Envelope && !running && !events.contains(true) ==> !running_after_events(
            mode,
            running,
            events,
        ),
        mode == LfoMode::Envelope && events.len() > 0 && events.last() ==> running_after_events(
            mode,
            running,
            events,
        ),
    decreases events.len(),
{
    if events.len() > 0 {
        let r = if events[0] {
            mode == LfoMode::Envelope || running
        } else {
            mode != LfoMode::Envelope && running
        };
        let rest = events.drop_first();
        lemma_run_flag(mode, r, rest);
        if !events.contains(true) {
            assert(!rest.contains(true)) by {
                if rest.contains(true) {
                    let k = choose|k: int| 0 <= k < rest.len() && rest[k] == true;
                    assert(events[k + 1] == true);
                }
            }
        }
        if events.len() > 1 {
            assert(rest.last() == events.last());
        }
    }
}

} // verus!
