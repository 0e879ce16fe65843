//! Effects support: the delay line's storage and indexing.
//!
//! The effects' sample arithmetic (soft clipping, wave-folding, tube
//! distortion, delay mix and feedback, reverb) is floating-point and lives
//! with the firmware; the delay line that holds past samples, and decides
//! which past sample a delay of `n` samples reads, is here.

use vstd::prelude::*;

verus! {

/// Simple delay line length (fixed max length, no heap): 2 s at 48 kHz.
pub const DELAY_MAX_SAMPLES: usize = 48000 * 2;

/// A delay of `delay_samples`, clamped to at most DELAY_MAX_SAMPLES - 1.
pub open spec fn spec_clamp_delay(delay_samples: nat) -> nat {
    if delay_samples < DELAY_MAX_SAMPLES - 1 {
        delay_samples
    } else {
        (DELAY_MAX_SAMPLES - 1) as nat
    }
}

/// The slot a delay of `delay_samples` reads when the next write goes to
/// slot `write_pos`: `delay_samples` (clamped) slots behind it, wrapping around.
pub open spec fn spec_read_index(write_pos: nat, delay_samples: nat) -> nat {
    ((write_pos + DELAY_MAX_SAMPLES - spec_clamp_delay(delay_samples)) % (
    DELAY_MAX_SAMPLES as int)) as nat
}

/// The abstract delay line: its slots and the slot the next write goes to.
pub type DelayLineView<T> = (Seq<T>, nat);

/// A delay line state is well formed: DELAY_MAX_SAMPLES slots, write slot in range.
pub open spec fn delay_line_wf<T>(st: DelayLineView<T>) -> bool {
    st.0.len() == DELAY_MAX_SAMPLES && st.1 < DELAY_MAX_SAMPLES
}

/// Writing `x`: it goes to the write slot, and the write slot moves one on, wrapping.
pub open spec fn spec_push<T>(st: DelayLineView<T>, x: T) -> DelayLineView<T> {
    (st.0.update(st.1 as int, x), ((st.1 + 1) % (DELAY_MAX_SAMPLES as nat)) as nat)
}

/// Writing each of `xs` in order.
pub open spec fn spec_push_all<T>(st: DelayLineView<T>, xs: Seq<T>) -> DelayLineView<T>
    decreases xs.len(),
{
    if xs.len() == 0 {
        st
    } else {
        spec_push_all(spec_push(st, xs[0]), xs.drop_first())
    }
}

/// The sample a delay of `delay_samples` reads.
pub open spec fn spec_tap<T>(st: DelayLineView<T>, delay_samples: nat) -> T {
    st.0[spec_read_index(st.1, delay_samples) as int]
}

/// Ring buffer of past samples for a delay effect.
#[derive(Debug)]
pub struct DelayLine<T> {
    buffer: [T; DELAY_MAX_SAMPLES],
    write_pos: usize,
}

impl<T> DelayLine<T> {
    #[verifier::type_invariant]
    spec fn write_pos_in_range(self) -> bool {
        self.write_pos < DELAY_MAX_SAMPLES
    }
}

impl<T> View for DelayLine<T> {
    type V = DelayLineView<T>;

    closed spec fn view(&self) -> DelayLineView<T> {
        (self.buffer@, self.write_pos as nat)
    }
}

impl<T: Copy> Clone for DelayLine<T> {
    fn clone(&self) -> (c: Self)
        ensures
            c@ == self@,
    {
        proof {
            use_type_invariant(self);
        }
        DelayLine { buffer: self.buffer, write_pos: self.write_pos }
    }
}

impl<T: Copy> DelayLine<T> {
    /// A delay line with every slot holding `fill` and writing starting at slot 0.
    pub fn new(fill: T) -> (d: Self)
        ensures
            delay_line_wf(d@),
            d@.1 == 0,
            forall|i: int| 0 <= i < DELAY_MAX_SAMPLES ==> d@.0[i] == fill,
    {
        DelayLine { buffer: [fill; DELAY_MAX_SAMPLES], write_pos: 0 }
    }

    /// The slot that a delay of `delay_samples` reads.
    pub fn read_pos(&self, delay_samples: usize) -> (pos: usize)
        ensures
            pos == spec_read_index(self@.1, delay_samples as nat),
            pos < DELAY_MAX_SAMPLES,
            delay_line_wf(self@),
    {
        proof {
            use_type_invariant(self);
        }
        let len: usize = DELAY_MAX_SAMPLES;
        let delay_samples: usize = if delay_samples < len - 1 {
            delay_samples
        } else {
            len - 1
        };
        (self.write_pos + len - delay_samples) % len
    }

    /// The sample written `delay_samples` writes ago (clamped to
    /// DELAY_MAX_SAMPLES - 1); see [`lemma_tap_reads_past_write`].
    pub fn tap(&self, delay_samples: usize) -> (x: T)
        ensures
            x == spec_tap(self@, delay_samples as nat),
            delay_line_wf(self@),
    {
        let pos: usize = self.read_pos(delay_samples);
        self.buffer[pos]
    }

    /// Write the next sample.
    pub fn push(&mut self, x: T)
        ensures
            final(self)@ == spec_push(old(self)@, x),
            delay_line_wf(old(self)@),
            delay_line_wf(final(self)@),
    {
        proof {
            use_type_invariant(&*self);
        }
        let len: usize = DELAY_MAX_SAMPLES;
        let pos: usize = self.write_pos;
        self.buffer[pos] = x;
        self.write_pos = (pos + 1) % len;
    }
}

/// Writes keep a delay line well formed.
pub proof fn lemma_push_wf<T>(st: DelayLineView<T>, xs: Seq<T>)
    requires
        delay_line_wf(st),
    ensures
        delay_line_wf(spec_push_all(st, xs)),
    decreases xs.len(),
{
    if xs.len() > 0 {
        lemma_push_wf(spec_push(st, xs[0]), xs.drop_first());
    }
}

proof fn lemma_slot_survives<T>(st: DelayLineView<T>, w0: nat, j: nat, x: T, ys: Seq<T>)
    requires
        delay_line_wf(st),
        w0 < DELAY_MAX_SAMPLES,
        st.0[w0 as int] == x,
        st.1 == (w0 + 1 + j) % (DELAY_MAX_SAMPLES as nat),
        j + ys.len() <= DELAY_MAX_SAMPLES - 2,
    ensures
        delay_line_wf(spec_push_all(st, ys)),
        spec_push_all(st, ys).0[w0 as int] == x,
        spec_push_all(st, ys).1 == (w0 + 1 + j + ys.len()) % (DELAY_MAX_SAMPLES as nat),
    decreases ys.len(),
{
    if ys.len() > 0 {
        let next = spec_push(st, ys[0]);
        let a: int = (w0 + 1 + j) as int;
        vstd::arithmetic::div_mod::lemma_add_mod_noop(a, 1, DELAY_MAX_SAMPLES as int);
        vstd::arithmetic::div_mod::lemma_small_mod(1, DELAY_MAX_SAMPLES as nat);
        assert(next.1 == (w0 + 1 + (j + 1)) % (DELAY_MAX_SAMPLES as nat));
        lemma_slot_survives(next, w0, j + 1, x, ys.drop_first());
    }
}

/// A sample written into a delay line is what a delay of `d` samples reads
/// `d` writes later, for 1 <= d <= DELAY_MAX_SAMPLES - 1: `ys` are the
/// `d - 1` samples written in between.
pub proof fn lemma_tap_reads_past_write<T>(st: DelayLineView<T>, x: T, ys: Seq<T>)
    requires
        delay_line_wf(st),
        ys.len() + 1 <= DELAY_MAX_SAMPLES - 1,
    ensures
        spec_tap(spec_push_all(spec_push(st, x), ys), (ys.len() + 1) as nat) == x,
{
    let w0: nat = st.1;
    let s1 = spec_push(st, x);
    lemma_slot_survives(s1, w0, 0, x, ys);
}

} // verus!
