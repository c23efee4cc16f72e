use std::collections::VecDeque;
use vstd::prelude::*;

verus! {

/// What a bounded history holds after `value` is appended to `samples`:
/// the newest `capacity` entries of `samples.push(value)`.
pub open spec fn kept_after_push<A>(samples: Seq<A>, capacity: nat, value: A) -> Seq<A> {
    let all = samples.push(value);
    if all.len() <= capacity {
        all
    } else {
        all.subrange(all.len() - capacity, all.len() as int)
    }
}

/// A history of fixed capacity: pushing into a full buffer evicts the oldest sample.
pub struct RingBuffer<A> {
    deque: VecDeque<A>,
    capacity: usize,
}

impl<A> View for RingBuffer<A> {
    type V = Seq<A>;

    /// The samples held, oldest first.
    closed spec fn view(&self) -> Seq<A> {
        self.deque@
    }
}

impl<A> RingBuffer<A> {
    /// The number of samples the buffer keeps.
    pub closed spec fn capacity(&self) -> nat {
        self.capacity as nat
    }

    /// A buffer never holds more samples than its capacity.
    pub open spec fn wf(&self) -> bool {
        self@.len() <= self.capacity()
    }

    pub fn new(capacity: usize) -> (r: RingBuffer<A>)
        ensures
            r.wf(),
            r@ == Seq::<A>::empty(),
            r.capacity() == capacity,
    {
        RingBuffer { deque: VecDeque::with_capacity(capacity), capacity }
    }

    /// Appends `value`, dropping the oldest sample when the buffer is full.
    pub fn push(&mut self, value: A)
        requires
            old(self).wf(),
        ensures
            final(self).wf(),
            final(self).capacity() == old(self).capacity(),
            final(self)@ == kept_after_push(old(self)@, old(self).capacity(), value),
    {
        if self.capacity == 0 {
            assert(self@ =~= kept_after_push(old(self)@, 0, value));
            return;
        }
        if self.deque.len() == self.capacity {
            let _ = self.deque.pop_front();
        }
        self.deque.push_back(value);
        assert(self@ =~= kept_after_push(old(self)@, old(self).capacity(), value));
    }

    /// The samples held, oldest first.
    pub fn deque(&self) -> (r: &VecDeque<A>)
        ensures
            r@ == self@,
    {
        &self.deque
    }

    pub fn len(&self) -> (r: usize)
        ensures
            r == self@.len(),
    {
        self.deque.len()
    }
}

impl<A> Default for RingBuffer<A> {
    fn default() -> (r: RingBuffer<A>)
        ensures
            r.wf(),
            r@ == Seq::<A>::empty(),
            r.capacity() == 10,
    {
        RingBuffer::new(10)
    }
}

} // verus!
