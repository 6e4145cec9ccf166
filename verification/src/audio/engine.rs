//! The double-buffered audio engine.

use vstd::prelude::*;
use super::codec::encode;
use super::codec::encoded;
use super::sample::Sample;
use super::views::stereo_frames;
use super::views::MonoIterator;
use super::views::StereoIterator;

verus! {

/// Stereo frames in one block, the unit exchanged with the application once
/// per cycle.
pub const BLOCK_SIZE_MAX: usize = 48;

/// Words in one DMA buffer: two halves of one block each, two channels
/// interleaved.
pub const DMA_BUFFER_SIZE: usize = BLOCK_SIZE_MAX * 2 * 2;

/// Words in one half of a DMA buffer, the most that one transfer moves.
pub const MAX_TRANSFER_SIZE: usize = BLOCK_SIZE_MAX * 2;

/// A buffer that the DMA controller fills or drains in a circle.
pub type DmaBuffer = [u32; DMA_BUFFER_SIZE];

/// One block of decoded stereo frames.
pub type AudioBuffer = [(Sample, Sample); BLOCK_SIZE_MAX];

/// Why a frame was not taken for output.
#[derive(Clone, Copy, Debug, PartialEq, Eq, Structural)]
pub enum CapacityError {
    /// The active window already holds a full block.
    CapacityExceeded,
}

/// The input buffer with the start of the half that software may read.
pub struct Input {
    index: usize,
    buffer: DmaBuffer,
}

impl Input {
    #[verifier::type_invariant]
    spec fn in_bounds(self) -> bool {
        self.index == 0 || self.index == MAX_TRANSFER_SIZE
    }

    /// The words of the buffer.
    pub closed spec fn words(self) -> Seq<u32> {
        self.buffer@
    }

    /// The first word of the active window.
    pub closed spec fn window_start(self) -> nat {
        self.index as nat
    }

    /// The words of the active window: one block of interleaved frames.
    pub open spec fn window(self) -> Seq<u32> {
        self.words().subrange(
            self.window_start() as int,
            self.window_start() + MAX_TRANSFER_SIZE as int,
        )
    }

    /// An input over `buffer`, with the first half as its window.
    pub fn new(buffer: DmaBuffer) -> (input: Self)
        ensures
            input.words() == buffer@,
            input.window_start() == 0,
    {
        Self { index: 0, buffer }
    }

    /// Makes the half that starts at `index` the active window.
    fn set_index(&mut self, index: usize)
        requires
            index == 0 || index == MAX_TRANSFER_SIZE,
        ensures
            final(self).words() == old(self).words(),
            final(self).window_start() == index,
    {
        self.index = index;
    }

    /// Takes over what the DMA controller has written: the buffer now holds
    /// `words`.
    pub fn load(&mut self, words: &DmaBuffer)
        ensures
            final(self).words() == words@,
            final(self).window_start() == old(self).window_start(),
    {
        proof {
            use_type_invariant(&*self);
        }
        self.buffer = *words;
    }

    /// The raw words of the buffer.
    pub fn buffer(&self) -> (words: &DmaBuffer)
        ensures
            words@ == self.words(),
    {
        &self.buffer
    }

    /// A view of the active window as the samples of its second channel.
    pub fn window_mono_iter(&self) -> (view: MonoIterator<'_>)
        ensures
            view.words() == self.window(),
            view.consumed() == 0,
    {
        proof {
            use_type_invariant(self);
        }
        MonoIterator::new(&self.buffer[self.index..self.index + MAX_TRANSFER_SIZE])
    }

    /// A view of the first frame of the buffer.
    pub fn get_stereo_iter(&self) -> (view: Option<StereoIterator<'_>>)
        ensures
            view.is_some(),
            view.unwrap().words() == self.words().subrange(0, 2),
            view.unwrap().consumed() == 0,
    {
        Some(StereoIterator::new(&self.buffer[0..2]))
    }

    /// A view of the active window as stereo frames.
    pub fn window_iter(&self) -> (view: StereoIterator<'_>)
        ensures
            view.words() == self.window(),
            view.consumed() == 0,
    {
        proof {
            use_type_invariant(self);
        }
        StereoIterator::new(&self.buffer[self.index..self.index + MAX_TRANSFER_SIZE])
    }
}

/// The output buffer with the cursor at which the next frame is written.
pub struct Output {
    index: usize,
    end: usize,
    buffer: DmaBuffer,
}

impl Output {
    #[verifier::type_invariant]
    spec fn in_bounds(self) -> bool {
        &&& self.index % 2 == 0
        &&& self.end % 2 == 0
        &&& self.end <= DMA_BUFFER_SIZE
    }

    /// The words of the buffer.
    pub closed spec fn words(self) -> Seq<u32> {
        self.buffer@
    }

    /// The place of the next word to be written.
    pub closed spec fn cursor(self) -> nat {
        self.index as nat
    }

    /// The end of the active window: the place that the cursor cannot pass.
    pub closed spec fn window_end(self) -> nat {
        self.end as nat
    }

    /// An output over `buffer`, with the first half as its window.
    pub fn new(buffer: DmaBuffer) -> (output: Self)
        ensures
            output.words() == buffer@,
            output.cursor() == 0,
            output.window_end() == MAX_TRANSFER_SIZE,
    {
        Self { index: 0, end: MAX_TRANSFER_SIZE, buffer }
    }

    /// The raw words of the buffer.
    pub fn buffer(&self) -> (words: &DmaBuffer)
        ensures
            words@ == self.words(),
    {
        &self.buffer
    }

    /// Makes the half that starts at `index` the active window and puts the
    /// cursor at its start.
    fn set_index(&mut self, index: usize)
        requires
            index == 0 || index == MAX_TRANSFER_SIZE,
        ensures
            final(self).words() == old(self).words(),
            final(self).cursor() == index,
            final(self).window_end() == index + MAX_TRANSFER_SIZE,
    {
        proof {
            use_type_invariant(&*self);
        }
        self.index = index;
        self.end = index + MAX_TRANSFER_SIZE;
    }

    /// Encodes a frame and writes it at the cursor, left sample first.
    ///
    /// The frame is refused, and nothing changes, once the cursor has
    /// reached the end of the active window.
    pub fn push(&mut self, data: (Sample, Sample)) -> (result: Result<(), CapacityError>)
        ensures
            final(self).window_end() == old(self).window_end(),
            old(self).cursor() < old(self).window_end() ==> ({
                let at = old(self).cursor() as int;
                &&& result.is_ok()
                &&& final(self).cursor() == at + 2
                &&& final(self).words() == old(self).words().update(at, encoded(data.0)).update(
                    at + 1,
                    encoded(data.1),
                )
            }),
            old(self).cursor() >= old(self).window_end() ==> ({
                &&& result == Err::<(), CapacityError>(CapacityError::CapacityExceeded)
                &&& *final(self) == *old(self)
            }),
    {
        proof {
            use_type_invariant(&*self);
        }
        if self.index < self.end {
            self.buffer[self.index] = encode(data.0);
            self.buffer[self.index + 1] = encode(data.1);
            self.index = self.index + 2;
            Ok(())
        } else {
            Err(CapacityError::CapacityExceeded)
        }
    }
}

/// What the engine holds, as plain values.
pub struct AudioState {
    /// The words of the input buffer.
    pub input: Seq<u32>,
    /// The words of the output buffer.
    pub output: Seq<u32>,
    /// The first word of the half of the input buffer that software may
    /// read.
    pub window: nat,
    /// The place in the output buffer of the next word to be written.
    pub cursor: nat,
    /// The end of the half of the output buffer that software may write.
    pub window_end: nat,
    /// Whether the first half has been transferred and not yet polled.
    pub half_transfer: bool,
    /// Whether the second half has been transferred and not yet polled.
    pub transfer_complete: bool,
}

impl AudioState {
    /// What holds of the engine at all times: both buffers have their full
    /// length, input and output windows are the same half, and the cursor
    /// lies in that half or at its end, on a frame boundary.
    pub open spec fn wf(self) -> bool {
        &&& self.input.len() == DMA_BUFFER_SIZE
        &&& self.output.len() == DMA_BUFFER_SIZE
        &&& (self.window == 0 || self.window == MAX_TRANSFER_SIZE)
        &&& self.window_end == self.window + MAX_TRANSFER_SIZE
        &&& self.window <= self.cursor <= self.window_end
        &&& self.cursor % 2 == 0
    }

    /// The engine after the DMA controller has raised the half-transfer flag.
    pub open spec fn with_half_transfer(self) -> AudioState {
        AudioState { half_transfer: true, ..self }
    }

    /// The engine after the DMA controller has raised the transfer-complete
    /// flag.
    pub open spec fn with_transfer_complete(self) -> AudioState {
        AudioState { transfer_complete: true, ..self }
    }

    /// The engine after the DMA controller has written the input buffer.
    pub open spec fn with_input(self, words: Seq<u32>) -> AudioState {
        AudioState { input: words, ..self }
    }

    /// The window that a poll reports, in frames from the start of the
    /// buffer: the first half if the half-transfer flag is up, else the
    /// second half if the transfer-complete flag is up, else none.
    pub open spec fn poll_window(self) -> Option<usize> {
        if self.half_transfer {
            Some(0usize)
        } else if self.transfer_complete {
            Some(BLOCK_SIZE_MAX)
        } else {
            None
        }
    }

    /// The engine after a poll: the flag that the poll answered is down,
    /// and both windows and the cursor are at the start of the half it
    /// reported. With no flag up nothing changes.
    pub open spec fn polled(self) -> AudioState {
        if self.half_transfer {
            AudioState {
                half_transfer: false,
                window: 0,
                cursor: 0,
                window_end: MAX_TRANSFER_SIZE as nat,
                ..self
            }
        } else if self.transfer_complete {
            AudioState {
                transfer_complete: false,
                window: MAX_TRANSFER_SIZE as nat,
                cursor: MAX_TRANSFER_SIZE as nat,
                window_end: DMA_BUFFER_SIZE as nat,
                ..self
            }
        } else {
            self
        }
    }

    /// The words of the active input window.
    pub open spec fn input_window(self) -> Seq<u32> {
        self.input.subrange(self.window as int, self.window + MAX_TRANSFER_SIZE)
    }

    /// Whether the active output window can take another frame.
    pub open spec fn has_capacity(self) -> bool {
        self.cursor < self.window_end
    }

    /// The engine after a frame has been written at the cursor.
    pub open spec fn pushed(self, data: (Sample, Sample)) -> AudioState {
        AudioState {
            output: self.output.update(self.cursor as int, encoded(data.0)).update(
                self.cursor as int + 1,
                encoded(data.1),
            ),
            cursor: self.cursor + 2,
            ..self
        }
    }

    /// The engine after the active input window has been copied, word for
    /// word, to the same place in the output buffer.
    pub open spec fn passed_through(self) -> AudioState {
        AudioState {
            output: Seq::new(
                self.output.len(),
                |i: int|
                    if self.window <= i < self.window + MAX_TRANSFER_SIZE {
                        self.input[i]
                    } else {
                        self.output[i]
                    },
            ),
            ..self
        }
    }
}

/// The audio engine: both DMA buffers, the active window, the output cursor
/// and the two transfer flags.
pub struct Audio {
    input: Input,
    output: Output,
    half_transfer: bool,
    transfer_complete: bool,
}

impl View for Audio {
    type V = AudioState;

    closed spec fn view(&self) -> AudioState {
        AudioState {
            input: self.input.words(),
            output: self.output.words(),
            window: self.input.window_start(),
            cursor: self.output.cursor(),
            window_end: self.output.window_end(),
            half_transfer: self.half_transfer,
            transfer_complete: self.transfer_complete,
        }
    }
}

impl Audio {
    /// An engine over two cleared buffers, with the first half as its
    /// window and no flag up.
    pub fn new() -> (audio: Self)
        ensures
            audio@.wf(),
            audio@.input == Seq::new(DMA_BUFFER_SIZE as nat, |i: int| 0u32),
            audio@.output == Seq::new(DMA_BUFFER_SIZE as nat, |i: int| 0u32),
            audio@.window == 0,
            audio@.cursor == 0,
            !audio@.half_transfer,
            !audio@.transfer_complete,
    {
        let audio = Audio {
            input: Input::new([0u32;DMA_BUFFER_SIZE]),
            output: Output::new([0u32;DMA_BUFFER_SIZE]),
            half_transfer: false,
            transfer_complete: false,
        };
        assert(audio@.input =~= Seq::new(DMA_BUFFER_SIZE as nat, |i: int| 0u32));
        assert(audio@.output =~= Seq::new(DMA_BUFFER_SIZE as nat, |i: int| 0u32));
        audio
    }

    /// Records that the DMA controller has raised the half-transfer flag:
    /// the first half of both buffers now belongs to software.
    pub fn signal_half_transfer(&mut self)
        ensures
            final(self)@ == old(self)@.with_half_transfer(),
            old(self)@.wf() ==> final(self)@.wf(),
    {
        self.half_transfer = true;
    }

    /// Records that the DMA controller has raised the transfer-complete
    /// flag: the second half of both buffers now belongs to software.
    pub fn signal_transfer_complete(&mut self)
        ensures
            final(self)@ == old(self)@.with_transfer_complete(),
            old(self)@.wf() ==> final(self)@.wf(),
    {
        self.transfer_complete = true;
    }

    /// Takes over what the DMA controller has written to the input buffer.
    pub fn load_input(&mut self, words: &DmaBuffer)
        ensures
            final(self)@ == old(self)@.with_input(words@),
            old(self)@.wf() ==> final(self)@.wf(),
    {
        self.input.load(words);
    }

    /// The raw words of the input buffer.
    pub fn input_buffer(&self) -> (words: &DmaBuffer)
        ensures
            words@ == self@.input,
    {
        self.input.buffer()
    }

    /// The raw words of the output buffer, for the DMA controller to drain.
    pub fn output_buffer(&self) -> (words: &DmaBuffer)
        ensures
            words@ == self@.output,
    {
        self.output.buffer()
    }

    /// The first word of the half that software may read and write.
    pub fn window_start(&self) -> (start: usize)
        ensures
            start == self@.window,
    {
        self.input.index
    }

    /// The place in the output buffer of the next word to be written.
    pub fn cursor(&self) -> (cursor: usize)
        ensures
            cursor == self@.cursor,
    {
        self.output.index
    }

    /// Checks the transfer flags and sets the window for input and output.
    ///
    /// Never waits. A flag that is up is cleared and its half reported, the
    /// half-transfer flag first. With both flags up, software has fallen
    /// behind the DMA controller by a block: this goes unnoticed, and what
    /// is read or written then may be what the controller is working on.
    pub fn poll(&mut self) -> (window: Option<usize>)
        ensures
            window == old(self)@.poll_window(),
            final(self)@ == old(self)@.polled(),
            old(self)@.wf() ==> final(self)@.wf(),
    {
        if self.half_transfer {
            self.half_transfer = false;
            self.input.set_index(0);
            self.output.set_index(0);
            Some(0)
        } else if self.transfer_complete {
            self.transfer_complete = false;
            self.input.set_index(MAX_TRANSFER_SIZE);
            self.output.set_index(MAX_TRANSFER_SIZE);
            Some(BLOCK_SIZE_MAX)
        } else {
            None
        }
    }

    /// Copies the block that has arrived to the output without decoding it.
    ///
    /// Polls first. On a hit the words of the active input window are
    /// copied to the same place in the output buffer; the cursor stays at
    /// the start of the window. With no flag up nothing changes.
    pub fn passthru(&mut self)
        ensures
            final(self)@ == if old(self)@.poll_window().is_some() {
                old(self)@.polled().passed_through()
            } else {
                old(self)@
            },
            old(self)@.wf() ==> final(self)@.wf(),
    {
        if self.poll().is_some() {
            let ghost polled = self@;
            proof {
                use_type_invariant(&self.input);
                use_type_invariant(&self.output);
            }
            let start: usize = self.input.index;
            let mut index: usize = 0;
            let mut out_index: usize = self.output.index;
            while index < MAX_TRANSFER_SIZE
                invariant
                    start == 0 || start == MAX_TRANSFER_SIZE,
                    index % 2 == 0,
                    index <= MAX_TRANSFER_SIZE,
                    out_index == start + index,
                    self.input.index == start,
                    self.output.index == start,
                    self@.input == polled.input,
                    self@.window == polled.window,
                    self@.cursor == polled.cursor,
                    self@.window_end == polled.window_end,
                    self@.half_transfer == polled.half_transfer,
                    self@.transfer_complete == polled.transfer_complete,
                    self@.output.len() == DMA_BUFFER_SIZE,
                    polled.output.len() == DMA_BUFFER_SIZE,
                    polled.input.len() == DMA_BUFFER_SIZE,
                    forall|i: int|
                        0 <= i < DMA_BUFFER_SIZE ==> #[trigger] self@.output[i] == if start <= i
                            < start + index {
                            polled.input[i]
                        } else {
                            polled.output[i]
                        },
                decreases MAX_TRANSFER_SIZE - index,
            {
                proof {
                    use_type_invariant(&self.output);
                }
                self.output.buffer[out_index] = self.input.buffer[index + start];
                self.output.buffer[out_index + 1] = self.input.buffer[index + start + 1];
                index += 2;
                out_index += 2;
            }
            assert(self@.output =~= polled.passed_through().output);
        }
    }

    /// Decodes the block that has arrived into `buffer`.
    ///
    /// Polls first. On a hit the frames of the active input window are
    /// decoded into `buffer`, in order, and the result is `true`. With no
    /// flag up nothing changes and the result is `false`.
    pub fn get_stereo(&mut self, buffer: &mut AudioBuffer) -> (hit: bool)
        ensures
            hit == old(self)@.poll_window().is_some(),
            final(self)@ == old(self)@.polled(),
            hit ==> final(buffer)@ == stereo_frames(final(self)@.input_window()),
            !hit ==> final(buffer)@ == old(buffer)@,
            old(self)@.wf() ==> final(self)@.wf(),
    {
        if self.poll().is_some() {
            let mut view = self.input.window_iter();
            let ghost frames = stereo_frames(view.words());
            let mut i: usize = 0;
            loop
                invariant_except_break
                    i <= BLOCK_SIZE_MAX,
                    frames == stereo_frames(view.words()),
                    frames.len() == BLOCK_SIZE_MAX,
                    view.remaining() == frames.skip(i as int),
                    forall|j: int| 0 <= j < i ==> buffer@[j] == frames[j],
                ensures
                    frames.len() == BLOCK_SIZE_MAX,
                    forall|j: int| 0 <= j < BLOCK_SIZE_MAX ==> buffer@[j] == frames[j],
                decreases BLOCK_SIZE_MAX - i,
            {
                match view.next() {
                    Some(frame) => {
                        buffer[i] = frame;
                        i += 1;
                    },
                    None => {
                        break ;
                    },
                }
            }
            assert(buffer@ =~= frames);
            true
        } else {
            false
        }
    }

    /// A view of the block that has arrived as stereo frames.
    ///
    /// Polls first, and gives the view on a hit only.
    pub fn get_stereo_iter(&mut self) -> (view: Option<StereoIterator<'_>>)
        ensures
            final(self)@ == old(self)@.polled(),
            view.is_some() == old(self)@.poll_window().is_some(),
            view.is_some() ==> view.unwrap().words() == final(self)@.input_window()
                && view.unwrap().consumed() == 0,
    {
        if self.poll().is_some() {
            Some(self.input.window_iter())
        } else {
            None
        }
    }

    /// A view of the block that has arrived as the samples of its second
    /// channel.
    ///
    /// Polls first, and gives the view on a hit only.
    pub fn get_mono_iter(&mut self) -> (view: Option<MonoIterator<'_>>)
        ensures
            final(self)@ == old(self)@.polled(),
            view.is_some() == old(self)@.poll_window().is_some(),
            view.is_some() ==> view.unwrap().words() == final(self)@.input_window()
                && view.unwrap().consumed() == 0,
    {
        if self.poll().is_some() {
            Some(self.input.window_mono_iter())
        } else {
            None
        }
    }

    /// Pushes a frame to the output buffer. To be called once for each frame
    /// that [`Audio::get_stereo`] handed out.
    pub fn push_stereo(&mut self, data: (Sample, Sample)) -> (result: Result<(), CapacityError>)
        ensures
            old(self)@.has_capacity() ==> ({
                &&& result.is_ok()
                &&& final(self)@ == old(self)@.pushed(data)
            }),
            !old(self)@.has_capacity() ==> ({
                &&& result == Err::<(), CapacityError>(CapacityError::CapacityExceeded)
                &&& final(self)@ == old(self)@
            }),
            old(self)@.wf() ==> final(self)@.wf(),
    {
        self.output.push(data)
    }
}

} // verus!
