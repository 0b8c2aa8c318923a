use vstd::prelude::*;

use crate::buffer::{keep_last, tail_of, SampleBuffer};
use crate::speech::{next_state, prunes, Reading, SpeechState};

verus! {

/// One tick of a session as a value: the audio captured since the last tick,
/// then the reading of the new tail. Returns the next state and samples.
pub open spec fn step<T>(
    state: SpeechState,
    samples: Seq<T>,
    frame: Seq<T>,
    r: Reading,
    keep: nat,
) -> (SpeechState, Seq<T>) {
    let grown = samples + frame;
    (next_state(state, r), if prunes(state, r) { keep_last(grown, keep) } else { grown })
}

/// The state and samples after the ticks `ticks`, in order, each the frame
/// captured before it and its reading.
pub open spec fn replay<T>(
    state: SpeechState,
    samples: Seq<T>,
    ticks: Seq<(Seq<T>, Reading)>,
    keep: nat,
) -> (SpeechState, Seq<T>)
    decreases ticks.len(),
{
    if ticks.len() == 0 {
        (state, samples)
    } else {
        let before = replay(state, samples, ticks.drop_last(), keep);
        step(before.0, before.1, ticks.last().0, ticks.last().1, keep)
    }
}

/// One recording session: the captured samples, where speech detection
/// stands, and how many samples of pre-speech audio are kept.
pub struct VadSession<T> {
    buffer: SampleBuffer<T>,
    state: SpeechState,
    keep: usize,
}

impl<T> VadSession<T> {
    pub closed spec fn state(&self) -> SpeechState {
        self.state
    }

    pub closed spec fn samples(&self) -> Seq<T> {
        self.buffer@
    }

    pub closed spec fn keep(&self) -> nat {
        self.keep as nat
    }
}

impl<T: Copy> VadSession<T> {
    /// A fresh session that keeps at most `keep` samples before speech starts.
    pub fn new(keep: usize) -> (r: Self)
        ensures
            r.state() == SpeechState::NotStarted,
            r.samples() == Seq::<T>::empty(),
            r.keep() == keep,
    {
        VadSession { buffer: SampleBuffer::new(), state: SpeechState::NotStarted, keep }
    }

    /// Where speech detection stands.
    pub fn current_state(&self) -> (r: SpeechState)
        ensures
            r == self.state(),
    {
        self.state
    }

    /// Number of samples held.
    pub fn len(&self) -> (r: usize)
        ensures
            r == self.samples().len(),
    {
        self.buffer.len()
    }

    /// Records a frame delivered by the capture device.
    pub fn push_frame(&mut self, frame: &[T])
        requires
            old(self).samples().len() + frame@.len() <= usize::MAX,
        ensures
            final(self).samples() == old(self).samples() + frame@,
            final(self).state() == old(self).state(),
            final(self).keep() == old(self).keep(),
    {
        self.buffer.append(frame);
    }

    /// The last `n` samples, or all when fewer are held: the window to score.
    pub fn window(&self, n: usize) -> (r: Vec<T>)
        ensures
            r@ == tail_of(self.samples(), n as nat),
    {
        self.buffer.tail(n)
    }

    /// Applies the reading of one tick: moves the state on, and while speech
    /// has not started, a low reading trims the samples to the last `keep`.
    /// Returns whether the utterance is now complete.
    pub fn tick(&mut self, r: Reading) -> (ended: bool)
        ensures
            final(self).state() == next_state(old(self).state(), r),
            final(self).samples() == if prunes(old(self).state(), r) {
                keep_last(old(self).samples(), old(self).keep())
            } else {
                old(self).samples()
            },
            final(self).keep() == old(self).keep(),
            ended == (final(self).state() == SpeechState::Ended),
    {
        if self.state == SpeechState::NotStarted && r == Reading::Below {
            self.buffer.prune_to_last(self.keep);
        }
        self.state = self.state.advance(r);
        self.state.is_ended()
    }

    /// Every sample held, oldest first: the finished segment.
    pub fn segment(&self) -> (r: Vec<T>)
        ensures
            r@ == self.samples(),
    {
        self.buffer.snapshot()
    }
}

/// While no reading rises above the threshold, speech never starts, and after
/// every low reading the samples held are no more than `keep`, however much
/// audio arrives between ticks.
pub proof fn lemma_silence_bounds_buffer<T>(
    samples: Seq<T>,
    ticks: Seq<(Seq<T>, Reading)>,
    keep: nat,
)
    requires
        forall|i: int| 0 <= i < ticks.len() ==> (#[trigger] ticks[i]).1 != Reading::Above,
    ensures
        replay(SpeechState::NotStarted, samples, ticks, keep).0 == SpeechState::NotStarted,
        ticks.len() > 0 && ticks.last().1 == Reading::Below ==> replay(
            SpeechState::NotStarted,
            samples,
            ticks,
            keep,
        ).1.len() <= keep,
    decreases ticks.len(),
{
    if ticks.len() > 0 {
        let p = ticks.drop_last();
        assert forall|i: int| 0 <= i < p.len() implies (#[trigger] p[i]).1 != Reading::Above by {
            assert(p[i] == ticks[i]);
        }
        lemma_silence_bounds_buffer(samples, p, keep);
        assert(ticks[ticks.len() - 1].1 != Reading::Above);
    }
}

} // verus!
