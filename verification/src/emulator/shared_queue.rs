//! The bounded queue between the two sides of the emulated device.

use std::collections::VecDeque;
use vstd::prelude::*;

verus! {

/// A queue that holds no more than `cap` elements and gives them out in
/// the order in which they came.
///
/// The queue itself is not shared; to share it, put it behind a lock.
pub struct SharedQueue<T> {
    inner: VecDeque<T>,
    cap: usize,
}

impl<T> SharedQueue<T> {
    /// Whether the queue holds no more than it can hold. A new queue does,
    /// and every operation keeps it so.
    pub closed spec fn within_capacity(&self) -> bool {
        self.inner@.len() <= self.cap
    }

    /// The elements in the queue, the oldest first.
    pub closed spec fn elements(&self) -> Seq<T> {
        Seq::new(self.inner@.len(), |i: int| self.inner@[self.inner@.len() - 1 - i])
    }

    /// The number of elements that the queue can hold.
    pub closed spec fn capacity(&self) -> usize {
        self.cap
    }

    /// The number of elements in the queue.
    pub fn len(&self) -> (n: usize)
        ensures
            n == self.elements().len(),
            self.within_capacity() ==> n <= self.capacity(),
    {
        self.inner.len()
    }

    /// Puts `elem` behind the elements in the queue, if it has room; says
    /// whether it had.
    pub fn enqueue(&mut self, elem: T) -> (accepted: bool)
        ensures
            accepted == (old(self).elements().len() < old(self).capacity()),
            accepted ==> final(self).elements() == old(self).elements().push(elem),
            !accepted ==> final(self).elements() == old(self).elements(),
            final(self).capacity() == old(self).capacity(),
            old(self).within_capacity() ==> final(self).within_capacity(),
    {
        if self.inner.len() < self.cap {
            self.inner.push_front(elem);
            assert(self.elements() =~= old(self).elements().push(elem));
            true
        } else {
            false
        }
    }

    /// Takes the oldest element out of the queue.
    pub fn dequeue(&mut self) -> (elem: Option<T>)
        ensures
            match elem {
                Some(e) => old(self).elements().len() > 0 && e == old(self).elements()[0]
                    && final(self).elements() == old(self).elements().drop_first(),
                None => old(self).elements().len() == 0 && final(self).elements() == old(
                    self,
                ).elements(),
            },
            final(self).capacity() == old(self).capacity(),
            old(self).within_capacity() ==> final(self).within_capacity(),
    {
        let elem = self.inner.pop_back();
        assert(elem is Some ==> self.elements() =~= old(self).elements().drop_first());
        elem
    }

    /// An empty queue that can hold `cap` elements.
    pub fn new(cap: usize) -> (queue: SharedQueue<T>)
        ensures
            queue.elements() == Seq::<T>::empty(),
            queue.capacity() == cap,
            queue.within_capacity(),
    {
        let queue = SharedQueue { inner: VecDeque::with_capacity(cap), cap };
        assert(queue.elements() =~= Seq::<T>::empty());
        queue
    }

    /// Takes every element out of the queue.
    pub fn clear(&mut self)
        ensures
            final(self).elements() == Seq::<T>::empty(),
            final(self).capacity() == old(self).capacity(),
            final(self).within_capacity(),
    {
        self.inner.clear();
        assert(self.elements() =~= Seq::<T>::empty());
    }
}

} // verus!
