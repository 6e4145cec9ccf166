//! Sample views: lazy, finite runs of samples decoded from borrowed words.
//!
//! A view borrows a run of interleaved words, left channel first, and hands
//! out one frame at a time, decoding as it goes. It runs once: a view that has
//! reached its end stays there, and a second pass takes a new view.

use vstd::prelude::*;
use super::codec::decode;
use super::codec::decoded;
use super::sample::Sample;

verus! {

/// The stereo frames that a run of interleaved words holds. Frame `i` is
/// decoded from the words `2 * i` and `2 * i + 1`; a last word without a
/// partner belongs to no frame.
pub open spec fn stereo_frames(words: Seq<u32>) -> Seq<(Sample, Sample)> {
    Seq::new(words.len() / 2, |i: int| (decoded(words[2 * i]), decoded(words[2 * i + 1])))
}

/// The samples of the second channel in a run of interleaved words: sample
/// `i` is decoded from the word `2 * i + 1`.
pub open spec fn mono_samples(words: Seq<u32>) -> Seq<Sample> {
    Seq::new(words.len() / 2, |i: int| decoded(words[2 * i + 1]))
}

/// A run of `n` words holds `n / 2` frames, two words each and none twice.
pub proof fn lemma_frame_count(words: Seq<u32>)
    ensures
        stereo_frames(words).len() == words.len() / 2,
        mono_samples(words).len() == words.len() / 2,
        forall|i: int|
            0 <= i < words.len() / 2 ==> #[trigger] stereo_frames(words)[i] == (
                decoded(words[2 * i]),
                decoded(words[2 * i + 1]),
            ) && 2 * i + 1 < words.len(),
        forall|i: int|
            0 <= i < words.len() / 2 ==> #[trigger] mono_samples(words)[i] == decoded(
                words[2 * i + 1],
            ),
{
}

/// A view of interleaved words as stereo frames.
pub struct StereoIterator<'a> {
    index: usize,
    buf: &'a [u32],
}

impl<'a> StereoIterator<'a> {
    #[verifier::type_invariant]
    spec fn in_bounds(self) -> bool {
        self.index <= self.buf@.len() && self.index % 2 == 0
    }

    /// The words that the view borrows.
    pub closed spec fn words(self) -> Seq<u32> {
        self.buf@
    }

    /// The number of words that the view has consumed.
    pub closed spec fn consumed(self) -> nat {
        self.index as nat
    }

    /// The frames that the view has yet to yield, next one first.
    pub open spec fn remaining(self) -> Seq<(Sample, Sample)> {
        stereo_frames(self.words()).skip(self.consumed() as int / 2)
    }

    /// A view of all of `buf`, at its start.
    pub fn new(buf: &'a [u32]) -> (view: Self)
        ensures
            view.words() == buf@,
            view.consumed() == 0,
            view.remaining() == stereo_frames(buf@),
    {
        Self { index: 0, buf }
    }

    /// The next frame, or `None` once fewer than two words are left.
    ///
    /// Each frame consumes two words. At the end the view does not change.
    pub fn next(&mut self) -> (frame: Option<(Sample, Sample)>)
        ensures
            final(self).words() == old(self).words(),
            old(self).remaining().len() > 0 ==> ({
                &&& frame == Some(old(self).remaining()[0])
                &&& final(self).consumed() == old(self).consumed() + 2
                &&& final(self).remaining() == old(self).remaining().drop_first()
            }),
            old(self).remaining().len() == 0 ==> ({
                &&& frame.is_none()
                &&& *final(self) == *old(self)
            }),
    {
        proof {
            use_type_invariant(&*self);
        }
        if self.buf.len() - self.index >= 2 {
            let left = decode(self.buf[self.index]);
            let right = decode(self.buf[self.index + 1]);
            self.index = self.index + 2;
            Some((left, right))
        } else {
            None
        }
    }

    /// Runs the view to its end and tells how many frames it yielded.
    pub fn count(self) -> (frames: usize)
        ensures
            frames == self.remaining().len(),
    {
        let ghost start = self.remaining();
        let mut view = self;
        let mut frames: usize = 0;
        let words: usize = view.buf.len();
        proof {
            use_type_invariant(&view);
            assert(start.len() <= stereo_frames(view.words()).len() <= words);
        }
        loop
            invariant_except_break
                frames <= start.len() <= words,
                view.remaining() == start.skip(frames as int),
            ensures
                frames == start.len(),
            decreases start.len() - frames,
        {
            match view.next() {
                Some(_) => {
                    frames += 1;
                },
                None => {
                    break ;
                },
            }
        }
        frames
    }
}

/// A view of interleaved words as the samples of their second channel.
pub struct MonoIterator<'a> {
    index: usize,
    buf: &'a [u32],
}

impl<'a> MonoIterator<'a> {
    #[verifier::type_invariant]
    spec fn in_bounds(self) -> bool {
        self.index <= self.buf@.len() && self.index % 2 == 0
    }

    /// The words that the view borrows.
    pub closed spec fn words(self) -> Seq<u32> {
        self.buf@
    }

    /// The number of words that the view has consumed.
    pub closed spec fn consumed(self) -> nat {
        self.index as nat
    }

    /// The samples that the view has yet to yield, next one first.
    pub open spec fn remaining(self) -> Seq<Sample> {
        mono_samples(self.words()).skip(self.consumed() as int / 2)
    }

    /// A view of all of `buf`, at its start.
    pub fn new(buf: &'a [u32]) -> (view: Self)
        ensures
            view.words() == buf@,
            view.consumed() == 0,
            view.remaining() == mono_samples(buf@),
    {
        Self { index: 0, buf }
    }

    /// The next sample, or `None` once fewer than two words are left.
    ///
    /// Each sample consumes the two words of its frame and is decoded from
    /// the second. At the end the view does not change.
    pub fn next(&mut self) -> (sample: Option<Sample>)
        ensures
            final(self).words() == old(self).words(),
            old(self).remaining().len() > 0 ==> ({
                &&& sample == Some(old(self).remaining()[0])
                &&& final(self).consumed() == old(self).consumed() + 2
                &&& final(self).remaining() == old(self).remaining().drop_first()
            }),
            old(self).remaining().len() == 0 ==> ({
                &&& sample.is_none()
                &&& *final(self) == *old(self)
            }),
    {
        proof {
            use_type_invariant(&*self);
        }
        if self.buf.len() - self.index >= 2 {
            let sample = decode(self.buf[self.index + 1]);
            self.index = self.index + 2;
            Some(sample)
        } else {
            None
        }
    }

    /// Runs the view to its end and tells how many samples it yielded.
    pub fn count(self) -> (samples: usize)
        ensures
            samples == self.remaining().len(),
    {
        let ghost start = self.remaining();
        let mut view = self;
        let mut samples: usize = 0;
        let words: usize = view.buf.len();
        proof {
            use_type_invariant(&view);
            assert(start.len() <= mono_samples(view.words()).len() <= words);
        }
        loop
            invariant_except_break
                samples <= start.len() <= words,
                view.remaining() == start.skip(samples as int),
            ensures
                samples == start.len(),
            decreases start.len() - samples,
        {
            match view.next() {
                Some(_) => {
                    samples += 1;
                },
                None => {
                    break ;
                },
            }
        }
        samples
    }
}

} // verus!
