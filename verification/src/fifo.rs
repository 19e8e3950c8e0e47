//! Bounded single-producer/single-consumer FIFO carrying frames and
//! payload buffers between the interrupt-level codec and task-level
//! code.
//!
//! The two execution contexts of the firmware are modelled as one owner
//! here, so the queue is ordinary verified state: a vector with a fixed
//! capacity bound as its invariant. `enqueue` refuses instead of
//! blocking when the queue is full.

use vstd::prelude::*;

verus! {

/// Bounded FIFO with a fixed capacity chosen at construction.
pub struct Fifo<T> {
    pub items: Vec<T>,
    pub cap: usize,
}

impl<T> Fifo<T> {
    /// The queue never holds more than its capacity.
    pub open spec fn wf(self) -> bool {
        self.items@.len() <= self.cap
    }

    /// The queued elements, oldest first.
    pub open spec fn contents(self) -> Seq<T> {
        self.items@
    }

    /// An empty queue of capacity `cap`.
    pub fn new(cap: usize) -> (r: Fifo<T>)
        ensures
            r.wf(),
            r.cap == cap,
            r.contents() == Seq::<T>::empty(),
    {
        Fifo { items: Vec::new(), cap }
    }

    /// How many elements are queued.
    pub fn len(&self) -> (r: usize)
        ensures
            r == self.contents().len(),
    {
        self.items.len()
    }

    /// Whether the queue is full.
    pub fn is_full(&self) -> (r: bool)
        ensures
            r == (self.contents().len() >= self.cap),
    {
        self.items.len() >= self.cap
    }

    /// Append `item` at the back; refused when the queue is full.
    pub fn enqueue(&mut self, item: T) -> (r: Result<(), T>)
        requires
            old(self).wf(),
        ensures
            final(self).wf(),
            final(self).cap == old(self).cap,
            old(self).contents().len() < old(self).cap ==> r is Ok
                && final(self).contents() == old(self).contents().push(item),
            old(self).contents().len() >= old(self).cap ==> (r matches Err(i) && i == item
                && final(self).contents() == old(self).contents()),
    {
        if self.items.len() < self.cap {
            self.items.push(item);
            Ok(())
        } else {
            Err(item)
        }
    }

    /// Remove and return the oldest element, if any.
    pub fn dequeue(&mut self) -> (r: Option<T>)
        requires
            old(self).wf(),
        ensures
            final(self).wf(),
            final(self).cap == old(self).cap,
            old(self).contents().len() == 0 ==> r is None
                && final(self).contents() == old(self).contents(),
            old(self).contents().len() > 0 ==> (r matches Some(i)
                && i == old(self).contents()[0]
                && final(self).contents() == old(self).contents().skip(1)),
    {
        if self.items.len() == 0 {
            None
        } else {
            let i = self.items.remove(0);
            assert(self.items@ =~= old(self).items@.skip(1));
            Some(i)
        }
    }
}

} // verus!
