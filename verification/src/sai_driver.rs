//! SAI driver support: the double buffer of interleaved stereo samples.
//!
//! The register programming, DMA and FIFO polling are memory-mapped I/O done
//! by the firmware; which buffer is filled next, which one is sent, and which
//! blocks are accepted is here.

use vstd::prelude::*;

verus! {

pub const SAMPLE_RATE: u32 = 48_000;

pub const BLOCK_SIZE: usize = 128;

pub const NUM_BUFFERS: usize = 2;

/// Samples per buffer: stereo interleaved.
pub const BUFFER_SIZE_SAMPLES: usize = BLOCK_SIZE * 2;

/// The buffer filled after `current`: the next one, wrapping.
pub fn next_buffer(current: usize) -> (next: usize)
    requires
        current < NUM_BUFFERS,
    ensures
        next == (current + 1) % (NUM_BUFFERS as int),
        next < NUM_BUFFERS,
{
    (current + 1) % NUM_BUFFERS
}

/// The buffer filled before `current`: the previous one, wrapping.
pub fn previous_buffer(current: usize) -> (prev: usize)
    requires
        current < NUM_BUFFERS,
    ensures
        prev == (current + NUM_BUFFERS - 1) % (NUM_BUFFERS as int),
        prev < NUM_BUFFERS,
{
    (current + NUM_BUFFERS - 1) % NUM_BUFFERS
}

/// After the current buffer is filled and the index moves on, the buffer
/// sent is the one just filled; with two buffers, the two alternate.
pub proof fn lemma_previous_of_next(current: int)
    requires
        0 <= current < NUM_BUFFERS,
    ensures
        (((current + 1) % (NUM_BUFFERS as int)) + NUM_BUFFERS - 1) % (NUM_BUFFERS as int) == current,
        (current + 1) % (NUM_BUFFERS as int) != current,
        (((current + 1) % (NUM_BUFFERS as int)) + 1) % (NUM_BUFFERS as int) == current,
{
}

/// A block is accepted only if it holds exactly BUFFER_SIZE_SAMPLES samples;
/// otherwise the error is "Invalid buffer size".
pub fn check_block_len(len: usize) -> (r: Result<(), &'static str>)
    ensures
        r is Ok <==> len == BUFFER_SIZE_SAMPLES,
        r is Err ==> r == Err::<(), &'static str>("Invalid buffer size"),
{
    if len != BLOCK_SIZE * 2 {
        return Err("Invalid buffer size");
    }
    Ok(())
}

} // verus!
