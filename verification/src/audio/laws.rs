//! What holds of the engine over any run of events, polls and pushes.

use vstd::prelude::*;
use super::codec::decoded;
use super::codec::encoded;
use super::engine::AudioState;
use super::engine::BLOCK_SIZE_MAX;
use super::engine::DMA_BUFFER_SIZE;
use super::engine::MAX_TRANSFER_SIZE;
use super::sample::Sample;

verus! {

impl AudioState {
    /// The engine after the DMA controller has raised the flag of a block
    /// cycle: half-transfer in the even cycles, transfer-complete in the odd
    /// ones.
    pub open spec fn with_flag_of_cycle(self, cycle: nat) -> AudioState {
        if cycle % 2 == 0 {
            self.with_half_transfer()
        } else {
            self.with_transfer_complete()
        }
    }

    /// The engine after so many block cycles, in each of which the DMA
    /// controller raises its flag and software polls once.
    pub open spec fn after_cycles(self, cycles: nat) -> AudioState
        decreases cycles,
    {
        if cycles == 0 {
            self
        } else {
            self.after_cycles((cycles - 1) as nat).with_flag_of_cycle(
                (cycles - 1) as nat,
            ).polled()
        }
    }

    /// The frames that the active output window can still take.
    pub open spec fn capacity(self) -> nat {
        if self.cursor <= self.window_end {
            ((self.window_end - self.cursor) / 2) as nat
        } else {
            0
        }
    }

    /// The engine after the frames have been pushed, first one first.
    pub open spec fn pushed_all(self, frames: Seq<(Sample, Sample)>) -> AudioState
        decreases frames.len(),
    {
        if frames.len() == 0 {
            self
        } else {
            self.pushed_all(frames.drop_last()).pushed(frames.last())
        }
    }
}

/// Events, polls, pushes and pass-through keep the engine well-formed: the
/// input and output windows stay the same half, and the cursor stays in it.
pub proof fn lemma_wf_preserved(s: AudioState, words: Seq<u32>, data: (Sample, Sample))
    requires
        s.wf(),
    ensures
        s.with_half_transfer().wf(),
        s.with_transfer_complete().wf(),
        words.len() == DMA_BUFFER_SIZE ==> s.with_input(words).wf(),
        s.polled().wf(),
        s.has_capacity() ==> s.pushed(data).wf(),
        s.passed_through().wf(),
{
}

/// With half-transfer and transfer-complete events in turn, each followed
/// by one poll, the polls report the first and the second half in turn,
/// whatever the engine held before.
pub proof fn lemma_windows_alternate(s: AudioState, cycle: nat)
    ensures
        s.after_cycles(cycle).with_flag_of_cycle(cycle).poll_window() == Some(
            if cycle % 2 == 0 {
                0usize
            } else {
                BLOCK_SIZE_MAX
            },
        ),
        cycle > 0 ==> !s.after_cycles(cycle).half_transfer,
    decreases cycle,
{
    if cycle > 0 {
        lemma_windows_alternate(s, (cycle - 1) as nat);
    }
}

/// A poll with no flag up reports nothing and changes nothing, and block
/// cycles leave no flag up where none was up before.
pub proof fn lemma_no_flag_no_window(s: AudioState, cycles: nat)
    requires
        !s.half_transfer,
        !s.transfer_complete,
    ensures
        s.poll_window().is_none(),
        s.polled() == s,
        !s.after_cycles(cycles).half_transfer,
        !s.after_cycles(cycles).transfer_complete,
        s.after_cycles(cycles).poll_window().is_none(),
    decreases cycles,
{
    if cycles > 0 {
        lemma_no_flag_no_window(s, (cycles - 1) as nat);
    }
}

/// A poll that reports a window leaves room for one block, in the half it
/// reported.
pub proof fn lemma_poll_opens_window(s: AudioState)
    requires
        s.poll_window().is_some(),
    ensures
        s.polled().capacity() == BLOCK_SIZE_MAX,
        s.polled().cursor == 2 * s.poll_window().unwrap(),
        s.polled().window == s.polled().cursor,
{
}

/// As many pushes succeed as the window has room for: each of them writes
/// its frame where the one before ended, and nothing else changes. Once the
/// room is used up the next push is refused.
pub proof fn lemma_pushes_fill_window(s: AudioState, frames: Seq<(Sample, Sample)>)
    requires
        s.wf(),
        frames.len() <= s.capacity(),
    ensures
        ({
            let t = s.pushed_all(frames);
            &&& t.wf()
            &&& t.cursor == s.cursor + 2 * frames.len()
            &&& t.capacity() == s.capacity() - frames.len()
            &&& t.has_capacity() == (frames.len() < s.capacity())
            &&& t.input == s.input
            &&& t.window == s.window
            &&& t.window_end == s.window_end
            &&& t.half_transfer == s.half_transfer
            &&& t.transfer_complete == s.transfer_complete
            &&& t.output.len() == s.output.len()
            &&& forall|i: int|
                0 <= i < frames.len() ==> t.output[s.cursor + 2 * i] == encoded(
                    (#[trigger] frames[i]).0,
                ) && t.output[s.cursor + 2 * i + 1] == encoded(frames[i].1)
            &&& forall|j: int|
                0 <= j < s.cursor || s.cursor + 2 * frames.len() <= j < s.output.len()
                    ==> #[trigger] t.output[j] == s.output[j]
        }),
        forall|k: int|
            0 <= k < frames.len() ==> (#[trigger] s.pushed_all(frames.take(k))).has_capacity(),
    decreases frames.len(),
{
    if frames.len() > 0 {
        let head = frames.drop_last();
        lemma_pushes_fill_window(s, head);
        let t = s.pushed_all(head);
        assert forall|k: int| 0 <= k < frames.len() implies (#[trigger] s.pushed_all(
            frames.take(k),
        )).has_capacity() by {
            if k < head.len() {
                assert(frames.take(k) =~= head.take(k));
            } else {
                assert(frames.take(k) =~= head);
            }
        }
        let u = t.pushed(frames.last());
        assert forall|i: int| 0 <= i < frames.len() implies u.output[s.cursor + 2 * i] == encoded(
            (#[trigger] frames[i]).0,
        ) && u.output[s.cursor + 2 * i + 1] == encoded(frames[i].1) by {
            if i < head.len() {
                assert(head[i] == frames[i]);
            }
        }
    }
}

/// Two blocks fill the two windows: after a half-transfer poll one block of
/// pushes succeeds and the next push is refused; after the
/// transfer-complete poll that follows, one more block succeeds and the
/// next push is refused again.
pub proof fn lemma_capacity_of_two_windows(
    s: AudioState,
    first: Seq<(Sample, Sample)>,
    second: Seq<(Sample, Sample)>,
)
    requires
        s.wf(),
        first.len() == BLOCK_SIZE_MAX,
        second.len() == BLOCK_SIZE_MAX,
    ensures
        ({
            let opened = s.with_half_transfer().polled();
            let filled = opened.pushed_all(first);
            let reopened = filled.with_transfer_complete().polled();
            let full = reopened.pushed_all(second);
            &&& forall|k: int|
                0 <= k < BLOCK_SIZE_MAX ==> (#[trigger] opened.pushed_all(
                    first.take(k),
                )).has_capacity()
            &&& !filled.has_capacity()
            &&& forall|k: int|
                0 <= k < BLOCK_SIZE_MAX ==> (#[trigger] reopened.pushed_all(
                    second.take(k),
                )).has_capacity()
            &&& !full.has_capacity()
            &&& full.cursor == DMA_BUFFER_SIZE
        }),
{
    let opened = s.with_half_transfer().polled();
    lemma_pushes_fill_window(opened, first);
    let filled = opened.pushed_all(first);
    let reopened = filled.with_transfer_complete().polled();
    lemma_pushes_fill_window(reopened, second);
}

/// One block cycle, end to end: after a half-transfer event the poll opens
/// the first half, the block that is read is the first half of the input,
/// and a block of pushes fills the first half of the output with the
/// encodings of its frames, in order. The second half is not touched.
pub proof fn lemma_block_cycle(s: AudioState, frames: Seq<(Sample, Sample)>)
    requires
        s.wf(),
        frames.len() == BLOCK_SIZE_MAX,
    ensures
        ({
            let opened = s.with_half_transfer().polled();
            let filled = opened.pushed_all(frames);
            &&& s.with_half_transfer().poll_window() == Some(0usize)
            &&& opened.input_window() == s.input.subrange(0, MAX_TRANSFER_SIZE as int)
            &&& forall|i: int|
                0 <= i < BLOCK_SIZE_MAX ==> filled.output[2 * i] == encoded(
                    (#[trigger] frames[i]).0,
                ) && filled.output[2 * i + 1] == encoded(frames[i].1)
            &&& forall|j: int|
                MAX_TRANSFER_SIZE <= j < DMA_BUFFER_SIZE ==> #[trigger] filled.output[j]
                    == s.output[j]
            &&& !filled.has_capacity()
        }),
{
    let opened = s.with_half_transfer().polled();
    lemma_pushes_fill_window(opened, frames);
}

/// Pass-through hands on the raw words of the active window, so that each
/// of them decodes to the sample that came in; the rest of the output
/// buffer keeps what it held.
pub proof fn lemma_passthru_keeps_words(s: AudioState, i: int)
    requires
        s.wf(),
        0 <= i < DMA_BUFFER_SIZE,
    ensures
        s.window <= i < s.window + MAX_TRANSFER_SIZE ==> s.passed_through().output[i] == s.input[i]
            && decoded(s.passed_through().output[i]) == decoded(s.input[i]),
        !(s.window <= i < s.window + MAX_TRANSFER_SIZE) ==> s.passed_through().output[i]
            == s.output[i],
{
}

} // verus!
