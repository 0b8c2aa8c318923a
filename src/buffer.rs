use vstd::prelude::*;

verus! {

/// The last `keep` items of `s`, or all of `s` when it is no longer than that.
pub open spec fn keep_last<T>(s: Seq<T>, keep: nat) -> Seq<T> {
    if s.len() > keep {
        s.subrange(s.len() - keep, s.len() as int)
    } else {
        s
    }
}

/// The last `n` items of `s`, or all of `s` when it is shorter.
pub open spec fn tail_of<T>(s: Seq<T>, n: nat) -> Seq<T> {
    keep_last(s, n)
}

/// An ordered, growable run of audio samples, oldest first.
///
/// It only grows at its end; the one way to shrink it is to drop a prefix.
pub struct SampleBuffer<T> {
    samples: Vec<T>,
}

impl<T> View for SampleBuffer<T> {
    type V = Seq<T>;

    closed spec fn view(&self) -> Seq<T> {
        self.samples@
    }
}

impl<T: Copy> SampleBuffer<T> {
    /// An empty buffer.
    pub fn new() -> (r: Self)
        ensures
            r@ == Seq::<T>::empty(),
    {
        SampleBuffer { samples: Vec::new() }
    }

    /// Number of samples held.
    pub fn len(&self) -> (r: usize)
        ensures
            r == self@.len(),
    {
        self.samples.len()
    }

    /// Adds `frame` after the samples already held.
    pub fn append(&mut self, frame: &[T])
        requires
            old(self)@.len() + frame@.len() <= usize::MAX,
        ensures
            final(self)@ == old(self)@ + frame@,
    {
        let ghost start = self@;
        let mut i: usize = 0;
        while i < frame.len()
            invariant
                i <= frame@.len(),
                self@ == start + frame@.subrange(0, i as int),
            decreases frame@.len() - i,
        {
            self.samples.push(frame[i]);
            i = i + 1;
            assert(self@ =~= start + frame@.subrange(0, i as int));
        }
        assert(frame@.subrange(0, frame@.len() as int) =~= frame@);
    }

    /// A copy of the last `n` samples, or of all of them when fewer are held.
    pub fn tail(&self, n: usize) -> (r: Vec<T>)
        ensures
            r@ == tail_of(self@, n as nat),
    {
        let len = self.samples.len();
        let start: usize = if len > n { len - n } else { 0 };
        let mut r: Vec<T> = Vec::with_capacity(len - start);
        let mut i: usize = start;
        while i < len
            invariant
                start <= i <= len,
                len == self@.len(),
                start == if len > n { len - n } else { 0 },
                r@ == self@.subrange(start as int, i as int),
            decreases len - i,
        {
            r.push(self.samples[i]);
            i = i + 1;
            assert(r@ =~= self@.subrange(start as int, i as int));
        }
        assert(self@.subrange(0, len as int) =~= self@);
        r
    }

    /// Drops the oldest samples so that at most `keep` remain; a buffer that
    /// already holds no more than `keep` is left as it is.
    pub fn prune_to_last(&mut self, keep: usize)
        ensures
            final(self)@ == keep_last(old(self)@, keep as nat),
    {
        let len = self.samples.len();
        if len > keep {
            let kept = self.samples.split_off(len - keep);
            self.samples = kept;
        }
    }

    /// A copy of every sample held, oldest first.
    pub fn snapshot(&self) -> (r: Vec<T>)
        ensures
            r@ == self@,
    {
        let r = self.tail(self.samples.len());
        assert(self@.subrange(0, self@.len() as int) =~= self@);
        r
    }
}

} // verus!
