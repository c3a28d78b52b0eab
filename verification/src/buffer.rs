//! The streaming buffer: a first-in, first-out queue of samples that is
//! filled once and then drained from the front, one sample at a time.

use std::collections::VecDeque;
use vstd::prelude::*;

verus! {

/// What one pop hands out from a queue holding `queue`: its head, or nothing
/// when the queue is empty.
pub open spec fn popped_sample<T>(queue: Seq<T>) -> Option<T> {
    if queue.len() == 0 {
        None
    } else {
        Some(queue[0])
    }
}

/// What one pop leaves behind: the queue without its head. An empty queue
/// stays as it is.
pub open spec fn after_pop<T>(queue: Seq<T>) -> Seq<T> {
    if queue.len() == 0 {
        queue
    } else {
        queue.skip(1)
    }
}

/// The queue after `count` pops in a row.
pub open spec fn after_pops<T>(queue: Seq<T>, count: nat) -> Seq<T>
    decreases count,
{
    if count == 0 {
        queue
    } else {
        after_pops(after_pop(queue), (count - 1) as nat)
    }
}

/// The queue after `count` pops, said at once: it has lost its first `count`
/// samples, or all of them where it held fewer.
pub open spec fn drained<T>(queue: Seq<T>, count: nat) -> Seq<T> {
    if count <= queue.len() {
        queue.skip(count as int)
    } else {
        Seq::empty()
    }
}

/// Popping `count` times, one sample after the other, drains the first
/// `count` samples and no others.
pub proof fn lemma_pops_drain<T>(queue: Seq<T>, count: nat)
    ensures
        after_pops(queue, count) == drained(queue, count),
    decreases count,
{
    if count > 0 {
        lemma_pops_drain(after_pop(queue), (count - 1) as nat);
        assert(drained(after_pop(queue), (count - 1) as nat) =~= drained(queue, count));
    } else {
        assert(queue.skip(0) =~= queue);
    }
}

/// One more pop after `count` pops is `count + 1` pops.
pub proof fn lemma_pops_step<T>(queue: Seq<T>, count: nat)
    ensures
        after_pops(queue, count + 1) == after_pop(after_pops(queue, count)),
{
    lemma_pops_drain(queue, count);
    lemma_pops_drain(queue, count + 1);
    assert(drained(queue, count + 1) =~= after_pop(drained(queue, count)));
}

/// First in, first out: once `samples` are pushed behind what was `waiting`,
/// and what was waiting has been popped, the pops that follow hand out
/// `samples` in the order in which they were pushed, and the pop after the
/// last of them finds the queue empty.
pub proof fn lemma_fifo_order<T>(waiting: Seq<T>, samples: Seq<T>, i: nat)
    requires
        i <= samples.len(),
    ensures
        i < samples.len() ==> popped_sample(after_pops(waiting + samples, waiting.len() + i))
            == Some(samples[i as int]),
        i == samples.len() ==> popped_sample(after_pops(waiting + samples, waiting.len() + i))
            == None::<T>,
{
    lemma_pops_drain(waiting + samples, waiting.len() + i);
    assert(drained(waiting + samples, waiting.len() + i) =~= samples.skip(i as int));
}

/// A FIFO of samples. Its view is the sequence of samples still waiting, head
/// first. It also keeps count, in ghost state, of every sample that ever went
/// in and of every sample that ever came out.
pub struct StreamingBuffer<T> {
    queue: VecDeque<T>,
    pushed: Ghost<nat>,
    popped: Ghost<nat>,
}

impl<T> View for StreamingBuffer<T> {
    type V = Seq<T>;

    closed spec fn view(&self) -> Seq<T> {
        self.queue@
    }
}

impl<T: Copy> StreamingBuffer<T> {
    /// How many samples were ever pushed.
    pub closed spec fn total_pushed(&self) -> nat {
        self.pushed@
    }

    /// How many samples were ever popped.
    pub closed spec fn total_popped(&self) -> nat {
        self.popped@
    }

    /// Nothing is lost and nothing is made up: the samples that came out plus
    /// the samples still waiting are the samples that went in.
    pub open spec fn wf(&self) -> bool {
        self.total_popped() + self@.len() == self.total_pushed()
    }

    /// An empty buffer into which nothing was pushed yet.
    pub fn new() -> (buffer: Self)
        ensures
            buffer.wf(),
            buffer@ == Seq::<T>::empty(),
            buffer.total_pushed() == 0,
            buffer.total_popped() == 0,
    {
        StreamingBuffer { queue: VecDeque::new(), pushed: Ghost(0), popped: Ghost(0) }
    }

    /// Appends `samples` at the tail, in their order.
    pub fn push_all(&mut self, samples: &[T])
        requires
            old(self).wf(),
        ensures
            final(self).wf(),
            final(self)@ == old(self)@ + samples@,
            final(self).total_pushed() == old(self).total_pushed() + samples@.len(),
            final(self).total_popped() == old(self).total_popped(),
    {
        let count: usize = samples.len();
        let mut done: usize = 0;
        while done < count
            invariant
                count == samples@.len(),
                done <= count,
                self.queue@ == old(self).queue@ + samples@.take(done as int),
                self.pushed@ == old(self).pushed@,
                self.popped@ == old(self).popped@,
            decreases count - done,
        {
            self.queue.push_back(samples[done]);
            proof {
                assert(samples@.take(done + 1) == samples@.take(done as int).push(samples@[done as int]));
            }
            done = done + 1;
        }
        proof {
            assert(samples@.take(count as int) == samples@);
            self.pushed@ = self.pushed@ + samples@.len();
        }
    }

    /// Removes the head and returns it; on an empty buffer returns `None` and
    /// changes nothing.
    pub fn pop_front(&mut self) -> (sample: Option<T>)
        requires
            old(self).wf(),
        ensures
            final(self).wf(),
            sample == popped_sample(old(self)@),
            final(self)@ == after_pop(old(self)@),
            final(self).total_pushed() == old(self).total_pushed(),
            final(self).total_popped() == old(self).total_popped() + (if sample is Some {
                1nat
            } else {
                0nat
            }),
    {
        let sample = self.queue.pop_front();
        proof {
            if sample is Some {
                self.popped@ = self.popped@ + 1;
            }
        }
        sample
    }

    /// Whether no sample is waiting.
    pub fn is_empty(&self) -> (empty: bool)
        ensures
            empty == (self@.len() == 0),
    {
        self.queue.len() == 0
    }

    /// The number of samples waiting.
    pub fn len(&self) -> (count: usize)
        ensures
            count == self@.len(),
    {
        self.queue.len()
    }
}

} // verus!
