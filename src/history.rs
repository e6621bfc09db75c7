//! Bounded first-in, first-out histories of rates.

use std::collections::VecDeque;
use vstd::prelude::*;

verus! {

/// The last `n` values of `s`, or all of `s` when it holds fewer.
pub open spec fn keep_last(s: Seq<u64>, n: nat) -> Seq<u64> {
    if s.len() <= n {
        s
    } else {
        s.subrange(s.len() - n, s.len() as int)
    }
}

/// What a buffer of capacity `cap` holding `start` holds after `vals` are
/// pushed in order.
pub open spec fn after_pushes(start: Seq<u64>, cap: nat, vals: Seq<u64>) -> Seq<u64>
    decreases vals.len(),
{
    if vals.len() == 0 {
        start
    } else {
        keep_last(after_pushes(start, cap, vals.drop_last()).push(vals.last()), cap)
    }
}

/// The largest value of `s`; 0 for an empty `s`.
pub open spec fn seq_max(s: Seq<u64>) -> u64
    decreases s.len(),
{
    if s.len() == 0 {
        0
    } else {
        let m = seq_max(s.drop_last());
        if s.last() > m {
            s.last()
        } else {
            m
        }
    }
}

/// The scale of a history: its largest value, or 1 when it is empty.
pub open spec fn scale_of(s: Seq<u64>) -> u64 {
    if s.len() == 0 {
        1
    } else {
        seq_max(s)
    }
}

/// `seq_max` bounds every value and is one of them.
pub proof fn lemma_seq_max(s: Seq<u64>)
    ensures
        forall|i: int| 0 <= i < s.len() ==> s[i] <= seq_max(s),
        s.len() > 0 ==> exists|i: int| 0 <= i < s.len() && s[i] == seq_max(s),
    decreases s.len(),
{
    if s.len() > 0 {
        let t = s.drop_last();
        lemma_seq_max(t);
        assert forall|i: int| 0 <= i < s.len() implies s[i] <= seq_max(s) by {
            if i < t.len() {
                assert(s[i] == t[i]);
            }
        }
        if s.last() <= seq_max(t) && t.len() > 0 {
            let j = choose|j: int| 0 <= j < t.len() && t[j] == seq_max(t);
            assert(s[j] == seq_max(s));
        } else {
            assert(s[s.len() - 1] == seq_max(s));
        }
    }
}

/// A fixed-capacity window of the most recent values, oldest first. Pushing
/// onto a full window drops its oldest value.
pub struct HistoryBuffer {
    items: VecDeque<u64>,
    capacity: usize,
}

impl View for HistoryBuffer {
    type V = Seq<u64>;

    closed spec fn view(&self) -> Seq<u64> {
        self.items@
    }
}

impl HistoryBuffer {
    /// The number of values the buffer keeps.
    pub closed spec fn cap(&self) -> nat {
        self.capacity as nat
    }

    /// An empty buffer that keeps the last `capacity` values.
    pub fn new(capacity: usize) -> (r: Self)
        ensures
            r@ == Seq::<u64>::empty(),
            r.cap() == capacity,
    {
        HistoryBuffer { items: VecDeque::with_capacity(capacity), capacity }
    }

    /// Appends `value`, first dropping the oldest value when the buffer is
    /// full.
    pub fn push(&mut self, value: u64)
        ensures
            final(self)@ == keep_last(old(self)@.push(value), old(self).cap()),
            final(self).cap() == old(self).cap(),
    {
        if self.capacity == 0 {
            assert(keep_last(old(self)@.push(value), 0) =~= Seq::<u64>::empty());
            self.items.clear();
            return;
        }
        while self.items.len() >= self.capacity
            invariant
                self.capacity == old(self).capacity,
                self.capacity > 0,
                old(self)@.len() >= self.items@.len(),
                self.items@.len() >= if old(self)@.len() < self.capacity {
                    old(self)@.len() as int
                } else {
                    self.capacity - 1
                },
                self.items@ =~= old(self)@.subrange(
                    old(self)@.len() - self.items@.len(),
                    old(self)@.len() as int,
                ),
            decreases self.items@.len(),
        {
            self.items.pop_front();
        }
        self.items.push_back(value);
        assert(self.items@ =~= keep_last(old(self)@.push(value), old(self).cap()));
    }

    /// Number of values held.
    pub fn len(&self) -> (r: usize)
        ensures
            r == self@.len(),
    {
        self.items.len()
    }

    /// The buffer holds no value.
    pub fn is_empty(&self) -> (r: bool)
        ensures
            r == (self@.len() == 0),
    {
        self.items.len() == 0
    }

    /// The number of values the buffer keeps.
    pub fn capacity(&self) -> (r: usize)
        ensures
            r == self.cap(),
    {
        self.capacity
    }

    /// The value at `index`, counting from the oldest.
    pub fn get(&self, index: usize) -> (r: u64)
        requires
            index < self@.len(),
        ensures
            r == self@[index as int],
    {
        self.items[index]
    }

    /// The values held, oldest first.
    pub fn snapshot(&self) -> (r: Vec<u64>)
        ensures
            r@ == self@,
    {
        let mut out: Vec<u64> = Vec::new();
        let mut i: usize = 0;
        while i < self.items.len()
            invariant
                i <= self.items@.len(),
                out@ =~= self.items@.subrange(0, i as int),
            decreases self.items@.len() - i,
        {
            out.push(self.items[i]);
            i = i + 1;
        }
        assert(out@ =~= self.items@);
        out
    }

    /// The largest value held, or 1 when the buffer is empty, so that it can
    /// divide.
    pub fn max(&self) -> (r: u64)
        ensures
            r == scale_of(self@),
            forall|i: int| 0 <= i < self@.len() ==> self@[i] <= r,
            self@.len() > 0 ==> exists|i: int| 0 <= i < self@.len() && self@[i] == r,
    {
        proof {
            lemma_seq_max(self@);
        }
        if self.items.len() == 0 {
            return 1;
        }
        let mut m: u64 = 0;
        let mut i: usize = 0;
        while i < self.items.len()
            invariant
                i <= self.items@.len(),
                m == seq_max(self.items@.subrange(0, i as int)),
            decreases self.items@.len() - i,
        {
            assert(self.items@.subrange(0, i + 1).drop_last() =~= self.items@.subrange(
                0,
                i as int,
            ));
            let x = self.items[i];
            if x > m {
                m = x;
            }
            i = i + 1;
        }
        assert(self.items@.subrange(0, i as int) =~= self.items@);
        m
    }
}

/// Pushing onto a window that was already cut to its capacity cuts the same
/// as pushing onto the uncut sequence.
proof fn lemma_keep_last_push(s: Seq<u64>, n: nat, x: u64)
    ensures
        keep_last(keep_last(s, n).push(x), n) == keep_last(s.push(x), n),
{
    if s.len() > n {
        assert(keep_last(keep_last(s, n).push(x), n) =~= keep_last(s.push(x), n));
    }
}

/// Pushing values one by one keeps the last `cap` values of everything
/// pushed after what the buffer held.
pub proof fn lemma_after_pushes(start: Seq<u64>, cap: nat, vals: Seq<u64>)
    requires
        start.len() <= cap,
    ensures
        after_pushes(start, cap, vals) == keep_last(start + vals, cap),
    decreases vals.len(),
{
    if vals.len() == 0 {
        assert(start + vals =~= start);
    } else {
        let init = vals.drop_last();
        lemma_after_pushes(start, cap, init);
        lemma_keep_last_push(start + init, cap, vals.last());
        assert((start + init).push(vals.last()) =~= start + vals);
    }
}

/// After `cap + k` pushes (`k > 0`) onto an empty buffer of capacity `cap`,
/// the buffer holds exactly `cap` values: the last `cap` pushed, in the order
/// they were pushed.
pub proof fn lemma_overfull_keeps_last(cap: nat, vals: Seq<u64>)
    requires
        vals.len() > cap,
    ensures
        after_pushes(Seq::empty(), cap, vals).len() == cap,
        after_pushes(Seq::empty(), cap, vals) == vals.subrange(
            vals.len() - cap,
            vals.len() as int,
        ),
{
    lemma_after_pushes(Seq::empty(), cap, vals);
    assert(Seq::<u64>::empty() + vals =~= vals);
}

} // verus!
