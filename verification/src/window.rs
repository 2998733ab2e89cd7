//! Rolling window of recent health-check outcomes, used to compute the
//! health error rate reported in each observation. The rate is the fraction
//! of errors in the window, scaled to a percentage:
//! `100 * (errors in window) / (window length)`.

use std::collections::VecDeque;
use std::ops::Index;
use vstd::prelude::*;

verus! {

/// How many of the entries are errors.
pub open spec fn count_errors(s: Seq<bool>) -> nat
    decreases s.len(),
{
    if s.len() == 0 {
        0
    } else {
        count_errors(s.drop_last()) + if s.last() {
            1nat
        } else {
            0nat
        }
    }
}

/// In any window, the error count never exceeds the window length, so the
/// error rate `100 * errors / length` always lies in `[0, 100]`.
pub proof fn lemma_error_rate_in_range(s: Seq<bool>)
    ensures
        count_errors(s) <= s.len(),
        100 * count_errors(s) <= 100 * s.len(),
    decreases s.len(),
{
    if s.len() > 0 {
        lemma_error_rate_in_range(s.drop_last());
    }
}

/// Rolling window of the last `capacity` health results, oldest first.
/// `true` entries are errors.
pub struct ErrorWindow {
    entries: VecDeque<bool>,
    capacity: usize,
}

impl ErrorWindow {
    /// The recorded results, oldest first.
    pub closed spec fn view(&self) -> Seq<bool> {
        self.entries@
    }

    pub closed spec fn capacity(&self) -> usize {
        self.capacity
    }

    pub open spec fn wf(&self) -> bool {
        self@.len() <= self.capacity() && self.capacity() >= 1
    }

    pub fn new(capacity: usize) -> (w: ErrorWindow)
        requires
            capacity >= 1,
        ensures
            w.wf(),
            w@ == Seq::<bool>::empty(),
            w.capacity() == capacity,
    {
        ErrorWindow { entries: VecDeque::new(), capacity }
    }

    /// Records one health result, evicting the oldest once the window is
    /// full.
    pub fn record(&mut self, is_error: bool)
        requires
            old(self).wf(),
        ensures
            final(self).wf(),
            final(self).capacity() == old(self).capacity(),
            old(self)@.len() < old(self).capacity() ==> final(self)@ == old(self)@.push(is_error),
            old(self)@.len() == old(self).capacity() ==> final(self)@ == old(self)@.push(
                is_error,
            ).skip(1),
    {
        self.entries.push_back(is_error);
        if self.entries.len() > self.capacity {
            self.entries.pop_front();
            proof {
                assert(self@ =~= old(self)@.push(is_error).skip(1));
            }
        }
    }

    /// How many entries the window currently holds.
    pub fn len(&self) -> (n: usize)
        ensures
            n == self@.len(),
    {
        self.entries.len()
    }

    /// How many of the held entries are errors.
    pub fn error_count(&self) -> (n: usize)
        ensures
            n == count_errors(self@),
    {
        let total = self.entries.len();
        let mut n: usize = 0;
        let mut i: usize = 0;
        while i < total
            invariant
                i <= total,
                total == self@.len(),
                n == count_errors(self@.take(i as int)),
                n <= i,
            decreases total - i,
        {
            proof {
                assert(self@.take(i + 1).drop_last() =~= self@.take(i as int));
                assert(self@.take(i + 1).last() == self@[i as int]);
            }
            if *self.entries.index(i) {
                n = n + 1;
            }
            i = i + 1;
        }
        proof {
            assert(self@.take(total as int) =~= self@);
        }
        n
    }

    /// The error count and window length from which the error rate
    /// `100 * errors / length` is computed (rate 0 for an empty window).
    pub fn error_stats(&self) -> (r: (usize, usize))
        ensures
            r.0 == count_errors(self@),
            r.1 == self@.len(),
            r.0 <= r.1,
    {
        proof {
            lemma_error_rate_in_range(self@);
        }
        (self.error_count(), self.len())
    }
}

} // verus!
