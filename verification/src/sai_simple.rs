//! Simplified SAI (Serial Audio Interface) for Teensy 4.1, without DMA.
//!
//! The register-level operations (configuring, enabling and feeding the
//! transmitter) are memory-mapped I/O and are performed by the firmware on a
//! [`SimpleSai`] handle; the library holds the handle and its parameters,
//! and decides, poll by poll, how long to wait for room in the FIFO.

use vstd::prelude::*;

verus! {

pub const SAMPLE_RATE: u32 = 48_000;

pub const BLOCK_SIZE: usize = 128;

/// Handle for the SAI1 transmitter.
#[derive(Debug)]
pub struct SimpleSai {}

impl SimpleSai {
    /// Create the handle. Clock configuration is left to the board support
    /// package, so this always succeeds.
    pub fn new() -> (r: Result<Self, &'static str>)
        ensures
            r is Ok,
    {
        Ok(Self {  })
    }
}

/// How many times the FIFO is polled for room before a send gives up.
pub const FIFO_WAIT_POLLS: u32 = 10000;

/// What to do after polling the FIFO while waiting to send a sample pair.
#[derive(Debug, Clone, Copy, PartialEq, Eq, Structural)]
pub enum FifoWait {
    /// There is room: send.
    Send,
    /// No room yet: poll again, with `remaining` polls left.
    Wait { remaining: u32 },
    /// The polls ran out: the send fails with "FIFO timeout".
    TimedOut,
}

/// One poll of the wait: with `remaining` polls left and the FIFO ready or
/// not. Once no poll is left the wait times out, whatever the FIFO says;
/// otherwise a ready FIFO ends the wait and a full one uses up a poll.
pub open spec fn spec_fifo_wait_step(remaining: u32, fifo_ready: bool) -> FifoWait {
    if remaining == 0 {
        FifoWait::TimedOut
    } else if fifo_ready {
        FifoWait::Send
    } else {
        FifoWait::Wait { remaining: (remaining - 1) as u32 }
    }
}

/// One poll of the wait for room in the FIFO (see [`spec_fifo_wait_step`]).
pub fn fifo_wait_step(remaining: u32, fifo_ready: bool) -> (w: FifoWait)
    ensures
        w == spec_fifo_wait_step(remaining, fifo_ready),
{
    if remaining == 0 {
        FifoWait::TimedOut
    } else if fifo_ready {
        FifoWait::Send
    } else {
        FifoWait::Wait { remaining: remaining - 1 }
    }
}

/// The outcome of a wait that starts with `remaining` polls and sees the
/// FIFO states `polls`, one per poll, until it ends (or the polls seen run out).
pub open spec fn fifo_wait_outcome(remaining: u32, polls: Seq<bool>) -> FifoWait
    decreases polls.len(),
{
    if polls.len() == 0 {
        FifoWait::Wait { remaining }
    } else {
        match spec_fifo_wait_step(remaining, polls[0]) {
            FifoWait::Wait { remaining: r } => fifo_wait_outcome(r, polls.drop_first()),
            w => w,
        }
    }
}

/// A wait ends within `remaining + 1` polls, and it ends in a send exactly
/// when the FIFO was ready at one of the first `remaining` polls.
pub proof fn lemma_fifo_wait_ends(remaining: u32, polls: Seq<bool>)
    requires
        polls.len() > remaining,
    ensures
        fifo_wait_outcome(remaining, polls) == (if exists|i: int|
            0 <= i < remaining && #[trigger] polls[i] {
            FifoWait::Send
        } else {
            FifoWait::TimedOut
        }),
    decreases polls.len(),
{
    if remaining > 0 && !polls[0] {
        let rest = polls.drop_first();
        lemma_fifo_wait_ends((remaining - 1) as u32, rest);
        if exists|i: int| 0 <= i < remaining && #[trigger] polls[i] {
            let i = choose|i: int| 0 <= i < remaining && #[trigger] polls[i];
            assert(rest[i - 1]);
        }
        if exists|i: int| 0 <= i < remaining - 1 && #[trigger] rest[i] {
            let i = choose|i: int| 0 <= i < remaining - 1 && #[trigger] rest[i];
            assert(polls[i + 1]);
        }
    } else if remaining > 0 {
        assert(polls[0]);
    }
}

} // verus!
