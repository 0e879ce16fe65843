//! ADSR envelope stages and the stage machine that drives them.
//!
//! The envelope's level is a floating-point quantity computed by the
//! firmware; this module decides which stage the envelope is in. Each call of
//! the envelope's `advance` runs the current stage's segment and reports
//! whether that segment has completed (its target level was reached, or its
//! time is zero); [`EnvelopeStage::after_advance`] then gives the next stage.
//! A note on enters [`EnvelopeStage::Attack`], a note off enters
//! [`EnvelopeStage::Release`].

use vstd::prelude::*;

verus! {

/// ADSR envelope stage.
#[derive(Debug, Clone, Copy, PartialEq, Eq, Structural)]
pub enum EnvelopeStage {
    Idle,
    Attack,
    Decay,
    Sustain,
    Release,
}

/// The stage that follows `stage` after one advance step in which the
/// current segment did (`segment_done`) or did not complete: attack is
/// followed by decay, decay by sustain, release by idle; idle and sustain
/// hold until a note on or note off.
pub open spec fn spec_after_advance(stage: EnvelopeStage, segment_done: bool) -> EnvelopeStage {
    match stage {
        EnvelopeStage::Idle => EnvelopeStage::Idle,
        EnvelopeStage::Attack => if segment_done {
            EnvelopeStage::Decay
        } else {
            EnvelopeStage::Attack
        },
        EnvelopeStage::Decay => if segment_done {
            EnvelopeStage::Sustain
        } else {
            EnvelopeStage::Decay
        },
        EnvelopeStage::Sustain => EnvelopeStage::Sustain,
        EnvelopeStage::Release => if segment_done {
            EnvelopeStage::Idle
        } else {
            EnvelopeStage::Release
        },
    }
}

/// Position of a stage along a note's life: attack, decay, sustain, release, idle.
pub open spec fn stage_rank(stage: EnvelopeStage) -> int {
    match stage {
        EnvelopeStage::Attack => 0,
        EnvelopeStage::Decay => 1,
        EnvelopeStage::Sustain => 2,
        EnvelopeStage::Release => 3,
        EnvelopeStage::Idle => 4,
    }
}

/// The stage after a sequence of advance steps, with the given completion flags.
pub open spec fn spec_after_advances(stage: EnvelopeStage, done: Seq<bool>) -> EnvelopeStage
    decreases done.len(),
{
    if done.len() == 0 {
        stage
    } else {
        spec_after_advances(spec_after_advance(stage, done[0]), done.drop_first())
    }
}

impl EnvelopeStage {
    /// Stage after one advance step (see [`spec_after_advance`]).
    pub fn after_advance(self, segment_done: bool) -> (next: EnvelopeStage)
        ensures
            next == spec_after_advance(self, segment_done),
            stage_rank(self) <= stage_rank(next) <= stage_rank(self) + 1,
            !segment_done ==> next == self,
    {
        match self {
            EnvelopeStage::Idle => EnvelopeStage::Idle,
            EnvelopeStage::Attack => if segment_done {
                EnvelopeStage::Decay
            } else {
                EnvelopeStage::Attack
            },
            EnvelopeStage::Decay => if segment_done {
                EnvelopeStage::Sustain
            } else {
                EnvelopeStage::Decay
            },
            EnvelopeStage::Sustain => EnvelopeStage::Sustain,
            EnvelopeStage::Release => if segment_done {
                EnvelopeStage::Idle
            } else {
                EnvelopeStage::Release
            },
        }
    }
}

/// Advancing alone never moves an envelope backwards along attack, decay,
/// sustain, release, idle: idle and sustain are held, a released envelope
/// stays released or idle, and an envelope that has not been triggered never
/// re-enters attack.
pub proof fn lemma_advances_monotone(stage: EnvelopeStage, done: Seq<bool>)
    ensures
        stage_rank(stage) <= stage_rank(spec_after_advances(stage, done)),
        stage == EnvelopeStage::Idle ==> spec_after_advances(stage, done) == EnvelopeStage::Idle,
        stage == EnvelopeStage::Sustain ==> spec_after_advances(stage, done)
            == EnvelopeStage::Sustain,
        (stage == EnvelopeStage::Release || stage == EnvelopeStage::Idle) ==> (spec_after_advances(
            stage,
            done,
        ) == EnvelopeStage::Release || spec_after_advances(stage, done) == EnvelopeStage::Idle),
    decreases done.len(),
{
    if done.len() > 0 {
        lemma_advances_monotone(spec_after_advance(stage, done[0]), done.drop_first());
    }
}

} // verus!
