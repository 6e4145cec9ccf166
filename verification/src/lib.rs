//! Verified core of a board support library for an audio DSP board: the
//! double-buffered audio engine with its fixed-point sample codec, and the
//! rules of the board's switches, lights and memory regions.

use vstd::prelude::*;

pub mod audio;
pub mod board;
pub mod flash;
pub mod hid;
pub mod mpu;

verus! {

/// Milliseconds in a second.
pub const MILLI: u32 = 1_000;

/// Audio blocks in a second.
pub const AUDIO_FRAME_RATE_HZ: u32 = 1_000;

/// Stereo frames in an audio block.
pub const AUDIO_BLOCK_SIZE: u16 = 48;

/// Stereo frames in a second.
pub const AUDIO_SAMPLE_RATE: usize = 48_000;

/// Cycles of the core clock in a second.
pub const CLOCK_RATE_HZ: u32 = 480_000_000;

/// Cycles of the core clock in a millisecond.
pub const MILICYCLES: u32 = CLOCK_RATE_HZ / MILLI;

/// The most milliseconds whose cycles can be counted in 32 bits.
pub const MAX_DELAY_MS: u32 = 8_947;

/// The cycles of the core clock in `ms` milliseconds.
pub fn ms_to_cycles(ms: u32) -> (cycles: u32)
    requires
        ms <= MAX_DELAY_MS,
    ensures
        cycles == ms * MILICYCLES,
{
    ms * MILICYCLES
}

/// A block of audio lasts one millisecond, which the core clock counts as
/// [`MILICYCLES`] cycles: that is the time in which the engine has to be
/// done with a block.
pub proof fn lemma_block_lasts_a_millisecond()
    ensures
        AUDIO_BLOCK_SIZE == audio::BLOCK_SIZE_MAX,
        AUDIO_BLOCK_SIZE * AUDIO_FRAME_RATE_HZ == AUDIO_SAMPLE_RATE,
        MILICYCLES * AUDIO_FRAME_RATE_HZ == CLOCK_RATE_HZ,
{
}

/// [`MAX_DELAY_MS`] is the longest delay whose cycles fit in 32 bits.
pub proof fn lemma_longest_delay(ms: u32)
    ensures
        ms <= MAX_DELAY_MS <==> ms * MILICYCLES <= u32::MAX,
{
    assert(MILICYCLES == 480_000);
}

} // verus!
