//! Bounded drop-oldest FIFO buffer holding serialized frames while the
//! transport is disconnected. On reconnection the whole contents are drained
//! in FIFO order. Pushing onto a full buffer evicts the oldest frame and
//! counts the eviction.

use std::collections::VecDeque;
use vstd::prelude::*;

verus! {

/// Bounded FIFO buffer of frames accumulated during disconnection.
///
/// Accounting invariant: every frame ever pushed is either still held,
/// was handed out by a drain, or was dropped by an eviction —
/// `total_buffered == dropped + drained + len`.
pub struct MetricBuffer {
    inner: VecDeque<String>,
    max_size: usize,
    dropped: u64,
    total_buffered: u64,
    drained: Ghost<nat>,
}

impl MetricBuffer {
    /// The held frames, oldest first.
    pub closed spec fn frames(&self) -> Seq<Seq<char>> {
        self.inner@.map_values(|s: String| s@)
    }

    /// The configured capacity.
    pub closed spec fn capacity(&self) -> usize {
        self.max_size
    }

    /// How many frames eviction has discarded.
    pub closed spec fn dropped_total(&self) -> u64 {
        self.dropped
    }

    /// How many frames have ever been pushed.
    pub closed spec fn pushed_total(&self) -> u64 {
        self.total_buffered
    }

    /// How many frames drains have handed out.
    pub closed spec fn drained_total(&self) -> nat {
        self.drained@
    }

    pub open spec fn wf(&self) -> bool {
        &&& self.capacity() >= 1
        &&& self.frames().len() <= self.capacity()
        &&& self.pushed_total() == self.dropped_total() + self.drained_total()
            + self.frames().len()
    }

    pub fn new(max_size: usize) -> (b: MetricBuffer)
        requires
            max_size >= 1,
        ensures
            b.wf(),
            b.frames() == Seq::<Seq<char>>::empty(),
            b.capacity() == max_size,
            b.dropped_total() == 0,
            b.pushed_total() == 0,
            b.drained_total() == 0,
    {
        let b = MetricBuffer {
            inner: VecDeque::new(),
            max_size,
            dropped: 0,
            total_buffered: 0,
            drained: Ghost(0),
        };
        proof {
            assert(b.frames() =~= Seq::<Seq<char>>::empty());
        }
        b
    }

    /// Adds a frame. When the buffer is full the oldest frame is evicted
    /// and counted as dropped.
    pub fn push(&mut self, msg: String)
        requires
            old(self).wf(),
            old(self).pushed_total() < u64::MAX,
        ensures
            final(self).wf(),
            final(self).capacity() == old(self).capacity(),
            final(self).pushed_total() == old(self).pushed_total() + 1,
            final(self).drained_total() == old(self).drained_total(),
            old(self).frames().len() < old(self).capacity() ==> {
                &&& final(self).frames() == old(self).frames().push(msg@)
                &&& final(self).dropped_total() == old(self).dropped_total()
            },
            old(self).frames().len() == old(self).capacity() ==> {
                &&& final(self).frames() == old(self).frames().skip(1).push(msg@)
                &&& final(self).dropped_total() == old(self).dropped_total() + 1
            },
    {
        if self.inner.len() >= self.max_size {
            self.inner.pop_front();
            self.dropped = self.dropped + 1;
        }
        self.inner.push_back(msg);
        self.total_buffered = self.total_buffered + 1;
        proof {
            if old(self).frames().len() == old(self).capacity() {
                assert(self.frames() =~= old(self).frames().skip(1).push(msg@));
            } else {
                assert(self.frames() =~= old(self).frames().push(msg@));
            }
        }
    }

    /// Removes and returns all held frames, oldest first.
    pub fn drain(&mut self) -> (out: Vec<String>)
        requires
            old(self).wf(),
        ensures
            final(self).wf(),
            out@.map_values(|s: String| s@) == old(self).frames(),
            final(self).frames() == Seq::<Seq<char>>::empty(),
            final(self).capacity() == old(self).capacity(),
            final(self).dropped_total() == old(self).dropped_total(),
            final(self).pushed_total() == old(self).pushed_total(),
            final(self).drained_total() == old(self).drained_total()
                + old(self).frames().len(),
    {
        let mut out: Vec<String> = Vec::new();
        while self.inner.len() > 0
            invariant
                self.max_size == old(self).max_size,
                self.dropped == old(self).dropped,
                self.total_buffered == old(self).total_buffered,
                self.drained == old(self).drained,
                out@.map_values(|s: String| s@) + self.frames() == old(self).frames(),
            decreases self.frames().len(),
        {
            let next = self.inner.pop_front();
            match next {
                Some(msg) => {
                    out.push(msg);
                    proof {
                        assert(out@.map_values(|s: String| s@) + self.frames() =~= old(
                            self,
                        ).frames());
                    }
                },
                None => {
                    proof {
                        assert(false);
                    }
                },
            }
        }
        proof {
            self.drained@ = self.drained@ + old(self).frames().len();
            assert(self.frames() =~= Seq::<Seq<char>>::empty());
            assert(out@.map_values(|s: String| s@) + self.frames() =~= out@.map_values(
                |s: String| s@,
            ));
        }
        out
    }

    /// How many frames are currently held.
    pub fn len(&self) -> (n: usize)
        ensures
            n == self.frames().len(),
    {
        self.inner.len()
    }

    /// How many frames eviction has discarded.
    pub fn dropped_count(&self) -> (n: u64)
        ensures
            n == self.dropped_total(),
    {
        self.dropped
    }

    /// How many frames have ever been pushed.
    pub fn total_buffered(&self) -> (n: u64)
        ensures
            n == self.pushed_total(),
    {
        self.total_buffered
    }

    /// The buffer never exceeds its capacity, and its drop counter accounts
    /// exactly for the pushes that neither remain held nor were drained.
    pub proof fn lemma_bounded_accounting(&self)
        requires
            self.wf(),
        ensures
            self.frames().len() <= self.capacity(),
            self.dropped_total() == self.pushed_total() - self.drained_total()
                - self.frames().len(),
    {
    }
}

} // verus!
