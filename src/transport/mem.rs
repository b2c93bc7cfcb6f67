//! The in-process transport's queue: one bounded FIFO per direction of a
//! substream. Closing the sending side lets the receiver drain what is left
//! and then see the end of the stream.
use std::collections::VecDeque;
use vstd::prelude::*;

verus! {

/// Why an item was not queued; the item is handed back.
#[derive(Debug, Clone, PartialEq, Eq)]
pub enum TrySendError<T> {
    /// The queue holds as many items as it may
    Full(T),
    /// The sending side was closed
    Closed(T),
}

/// What taking from a queue gives.
#[derive(Debug, Clone, PartialEq, Eq)]
pub enum TryRecv<T> {
    /// The oldest item
    Item(T),
    /// Nothing yet; more may come
    Empty,
    /// Nothing, and nothing more will come
    Ended,
}

/// A bounded FIFO queue with a close flag.
pub struct MemQueue<T> {
    items: VecDeque<T>,
    capacity: usize,
    closed: bool,
}

impl<T> MemQueue<T> {
    /// The queued items, oldest first.
    pub closed spec fn items(&self) -> Seq<T> {
        self.items@
    }

    pub closed spec fn capacity(&self) -> nat {
        self.capacity as nat
    }

    pub closed spec fn closed(&self) -> bool {
        self.closed
    }

    /// The queue never holds more than its capacity.
    pub closed spec fn wf(&self) -> bool {
        self.items@.len() <= self.capacity
    }

    /// An empty, open queue that holds at most `capacity` items.
    pub fn new(capacity: usize) -> (r: Self)
        ensures
            r.wf(),
            r.items() == Seq::<T>::empty(),
            r.capacity() == capacity,
            !r.closed(),
    {
        MemQueue { items: VecDeque::new(), capacity, closed: false }
    }

    pub fn len(&self) -> (r: usize)
        ensures
            r == self.items().len(),
    {
        self.items.len()
    }

    pub fn is_closed(&self) -> (r: bool)
        ensures
            r == self.closed(),
    {
        self.closed
    }

    /// Queues `item` behind the others, unless the queue is closed or full.
    pub fn try_send(&mut self, item: T) -> (r: Result<(), TrySendError<T>>)
        requires
            old(self).wf(),
        ensures
            final(self).wf(),
            final(self).capacity() == old(self).capacity(),
            final(self).closed() == old(self).closed(),
            old(self).closed() ==> r == Err::<(), TrySendError<T>>(TrySendError::Closed(item))
                && final(self).items() == old(self).items(),
            !old(self).closed() && old(self).items().len() == old(self).capacity()
                ==> r == Err::<(), TrySendError<T>>(TrySendError::Full(item))
                && final(self).items() == old(self).items(),
            !old(self).closed() && old(self).items().len() < old(self).capacity()
                ==> r == Ok::<(), TrySendError<T>>(()) && final(self).items() == old(self).items().push(item),
    {
        if self.closed {
            Err(TrySendError::Closed(item))
        } else if self.items.len() >= self.capacity {
            Err(TrySendError::Full(item))
        } else {
            self.items.push_back(item);
            Ok(())
        }
    }

    /// Takes the oldest item; once the queue is closed and drained, reports
    /// the end.
    pub fn try_recv(&mut self) -> (r: TryRecv<T>)
        requires
            old(self).wf(),
        ensures
            final(self).wf(),
            final(self).capacity() == old(self).capacity(),
            final(self).closed() == old(self).closed(),
            old(self).items().len() > 0 ==> r == TryRecv::Item(old(self).items()[0])
                && final(self).items() == old(self).items().drop_first(),
            old(self).items().len() == 0 ==> final(self).items() == old(self).items()
                && r == (if old(self).closed() { TryRecv::<T>::Ended } else { TryRecv::<T>::Empty }),
    {
        match self.items.pop_front() {
            Some(item) => TryRecv::Item(item),
            None => {
                if self.closed {
                    TryRecv::Ended
                } else {
                    TryRecv::Empty
                }
            },
        }
    }

    /// Closes the sending side; what is queued stays to be taken.
    pub fn close(&mut self)
        requires
            old(self).wf(),
        ensures
            final(self).wf(),
            final(self).closed(),
            final(self).items() == old(self).items(),
            final(self).capacity() == old(self).capacity(),
    {
        self.closed = true;
    }
}

} // verus!
