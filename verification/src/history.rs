//! Bounded history buffer: a fixed-capacity FIFO sample store for the
//! sparkline series.  Appending beyond capacity evicts the oldest sample,
//! so the buffer always holds the most recent samples in chronological
//! order.

use vstd::prelude::*;

verus! {

/// Capacity shared by every history buffer.
pub const HISTORY_CAPACITY: usize = 50;

/// What one append does to the contents: the new sample goes to the back,
/// and when the buffer is full the oldest sample leaves.
pub open spec fn push_spec(s: Seq<u64>, value: u64) -> Seq<u64> {
    if s.len() < HISTORY_CAPACITY {
        s.push(value)
    } else {
        s.skip(1).push(value)
    }
}

/// The contents after appending every sample of `values` in order.
pub open spec fn fold_pushes(s: Seq<u64>, values: Seq<u64>) -> Seq<u64>
    decreases values.len(),
{
    if values.len() == 0 {
        s
    } else {
        fold_pushes(push_spec(s, values[0]), values.skip(1))
    }
}

/// Ordered store of at most [`HISTORY_CAPACITY`] numeric samples;
/// insertion order is chronological order.
pub struct HistoryBuffer {
    samples: Vec<u64>,
}

impl View for HistoryBuffer {
    type V = Seq<u64>;

    closed spec fn view(&self) -> Seq<u64> {
        self.samples@
    }
}

impl HistoryBuffer {
    /// The capacity bound holds at all times.
    pub open spec fn wf(&self) -> bool {
        self@.len() <= HISTORY_CAPACITY
    }

    /// An empty buffer.
    pub fn new() -> (r: HistoryBuffer)
        ensures
            r.wf(),
            r@ == Seq::<u64>::empty(),
    {
        HistoryBuffer { samples: Vec::new() }
    }

    pub fn len(&self) -> (n: usize)
        ensures
            n == self@.len(),
    {
        self.samples.len()
    }

    pub fn get(&self, i: usize) -> (v: u64)
        requires
            i < self@.len(),
        ensures
            v == self@[i as int],
    {
        self.samples[i]
    }

    /// Read-only access for the renderer.
    pub fn as_slice(&self) -> (s: &[u64])
        ensures
            s@ == self@,
    {
        self.samples.as_slice()
    }

    /// Append one sample, evicting the oldest when the buffer is full.
    pub fn push(&mut self, value: u64)
        requires
            old(self).wf(),
        ensures
            final(self).wf(),
            final(self)@ == push_spec(old(self)@, value),
    {
        self.samples.push(value);
        if self.samples.len() > HISTORY_CAPACITY {
            self.samples.remove(0);
            proof {
                assert(self@ =~= push_spec(old(self)@, value));
            }
        }
    }
}

/// Folding any run of appends from a buffer within capacity lands within
/// capacity: the buffer never exceeds [`HISTORY_CAPACITY`] elements.
pub proof fn lemma_fold_pushes_len(s: Seq<u64>, values: Seq<u64>)
    requires
        s.len() <= HISTORY_CAPACITY,
    ensures
        fold_pushes(s, values).len() <= HISTORY_CAPACITY,
        fold_pushes(s, values).len()
            == if s.len() + values.len() <= HISTORY_CAPACITY {
                s.len() + values.len()
            } else {
                HISTORY_CAPACITY as nat
            },
    decreases values.len(),
{
    if values.len() > 0 {
        lemma_fold_pushes_len(push_spec(s, values[0]), values.skip(1));
    }
}

/// What a run of appends leaves in the buffer, exactly: the last
/// [`HISTORY_CAPACITY`] of the samples ever held, in order.
pub proof fn lemma_fold_pushes(s: Seq<u64>, values: Seq<u64>)
    requires
        s.len() <= HISTORY_CAPACITY,
    ensures
        fold_pushes(s, values) == if s.len() + values.len() <= HISTORY_CAPACITY {
            s + values
        } else {
            (s + values).skip(s.len() + values.len() - HISTORY_CAPACITY)
        },
    decreases values.len(),
{
    if values.len() == 0 {
        assert(fold_pushes(s, values) =~= s + values);
    } else {
        let s1 = push_spec(s, values[0]);
        lemma_fold_pushes(s1, values.skip(1));
        assert(s1 + values.skip(1) =~= if s.len() < HISTORY_CAPACITY {
            s + values
        } else {
            (s + values).skip(1)
        });
        if s.len() + values.len() > HISTORY_CAPACITY {
            assert((s1 + values.skip(1)).skip(s1.len() + values.skip(1).len() - HISTORY_CAPACITY)
                =~= (s + values).skip(s.len() + values.len() - HISTORY_CAPACITY));
        }
    }
}

/// FIFO eviction law: after appending at least [`HISTORY_CAPACITY`]
/// samples, the buffer equals the last [`HISTORY_CAPACITY`] of them in
/// chronological order, whatever it held before.
pub proof fn lemma_fifo_eviction(s: Seq<u64>, values: Seq<u64>)
    requires
        s.len() <= HISTORY_CAPACITY,
        values.len() >= HISTORY_CAPACITY,
    ensures
        fold_pushes(s, values) == values.skip(values.len() - HISTORY_CAPACITY),
{
    lemma_fold_pushes(s, values);
    if s.len() + values.len() > HISTORY_CAPACITY {
        assert((s + values).skip(s.len() + values.len() - HISTORY_CAPACITY)
            =~= values.skip(values.len() - HISTORY_CAPACITY));
    } else {
        assert(s + values =~= values.skip(values.len() - HISTORY_CAPACITY));
    }
}

} // verus!
