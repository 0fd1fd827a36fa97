//! An ordered, closable queue with any number of producers and one consumer.
//!
//! The queue itself is plain data: the embedding program decides how producers
//! and the consumer are scheduled and serialises their calls. Values leave in
//! the order in which they were accepted, and closing is a one-way switch that
//! the consumer observes once the queue has run dry.

use std::collections::VecDeque;
use vstd::prelude::*;

verus! {

/// Why a value was not accepted.
#[derive(Debug, Clone, Copy, PartialEq, Eq, Structural)]
pub enum SendError {
    /// The queue has been closed.
    Closed,
    /// The queue is bounded and already holds as many values as it may.
    Full,
}

/// Why no value was handed out.
#[derive(Debug, Clone, Copy, PartialEq, Eq, Structural)]
pub enum RecvError {
    /// Nothing is queued right now, but more may come.
    Empty,
    /// Nothing is queued and nothing will ever come.
    Closed,
}

/// A FIFO queue of `T` with an optional bound and a closed flag.
pub struct Channel<T> {
    queue: VecDeque<T>,
    limit: Option<usize>,
    closed: bool,
}

impl<T> View for Channel<T> {
    type V = Seq<T>;

    /// The queued values, oldest first.
    closed spec fn view(&self) -> Seq<T> {
        self.queue@
    }
}

impl<T> Channel<T> {
    /// Whether the queue has been closed.
    pub closed spec fn closed(&self) -> bool {
        self.closed
    }

    /// The bound the queue was made with, if any.
    pub closed spec fn limit(&self) -> Option<usize> {
        self.limit
    }

    /// Whether one more value fits.
    pub open spec fn has_room(&self) -> bool {
        match self.limit() {
            Some(n) => self@.len() < n,
            None => true,
        }
    }

    /// An open, empty queue that holds at most `limit` values.
    pub fn bounded(limit: usize) -> (ch: Channel<T>)
        ensures
            ch@ == Seq::<T>::empty(),
            !ch.closed(),
            ch.limit() == Some(limit),
    {
        Channel { queue: VecDeque::new(), limit: Some(limit), closed: false }
    }

    /// An open, empty queue without a bound.
    pub fn unbounded() -> (ch: Channel<T>)
        ensures
            ch@ == Seq::<T>::empty(),
            !ch.closed(),
            ch.limit() is None,
    {
        Channel { queue: VecDeque::new(), limit: None, closed: false }
    }

    /// Number of queued values.
    pub fn len(&self) -> (n: usize)
        ensures
            n == self@.len(),
    {
        self.queue.len()
    }

    /// Whether nothing is queued.
    pub fn is_empty(&self) -> (b: bool)
        ensures
            b == (self@.len() == 0),
    {
        self.queue.len() == 0
    }

    /// Whether the queue has been closed.
    pub fn is_closed(&self) -> (b: bool)
        ensures
            b == self.closed(),
    {
        self.closed
    }

    /// The bound the queue was made with, if any.
    pub fn capacity(&self) -> (limit: Option<usize>)
        ensures
            limit == self.limit(),
    {
        self.limit
    }

    /// Appends `value` behind everything queued so far, unless the queue is
    /// closed or full; a rejected value leaves the queue untouched.
    pub fn try_send(&mut self, value: T) -> (res: Result<(), SendError>)
        ensures
            final(self).closed() == old(self).closed(),
            final(self).limit() == old(self).limit(),
            old(self).closed() ==> res == Err::<(), SendError>(SendError::Closed),
            !old(self).closed() && !old(self).has_room() ==> res == Err::<(), SendError>(
                SendError::Full,
            ),
            !old(self).closed() && old(self).has_room() ==> res == Ok::<(), SendError>(()),
            res is Ok ==> final(self)@ == old(self)@.push(value),
            res is Err ==> final(self)@ == old(self)@,
    {
        if self.closed {
            return Err(SendError::Closed);
        }
        match self.limit {
            Some(n) => {
                if self.queue.len() >= n {
                    return Err(SendError::Full);
                }
            },
            None => {},
        }
        self.queue.push_back(value);
        Ok(())
    }

    /// Hands out the oldest queued value. With nothing queued it reports
    /// whether more may come; it never waits.
    pub fn try_recv(&mut self) -> (res: Result<T, RecvError>)
        ensures
            final(self).closed() == old(self).closed(),
            final(self).limit() == old(self).limit(),
            old(self)@.len() > 0 ==> res == Ok::<T, RecvError>(old(self)@[0]) && final(self)@
                == old(self)@.drop_first(),
            old(self)@.len() == 0 ==> final(self)@ == old(self)@,
            old(self)@.len() == 0 && old(self).closed() ==> res == Err::<T, RecvError>(
                RecvError::Closed,
            ),
            old(self)@.len() == 0 && !old(self).closed() ==> res == Err::<T, RecvError>(
                RecvError::Empty,
            ),
    {
        match self.queue.pop_front() {
            Some(value) => Ok(value),
            None => {
                if self.closed {
                    Err(RecvError::Closed)
                } else {
                    Err(RecvError::Empty)
                }
            },
        }
    }

    /// Hands out everything queued, oldest first, and leaves the queue empty.
    pub fn drain(&mut self) -> (all: Vec<T>)
        ensures
            all@ == old(self)@,
            final(self)@ == Seq::<T>::empty(),
            final(self).closed() == old(self).closed(),
            final(self).limit() == old(self).limit(),
    {
        let mut all: Vec<T> = Vec::new();
        loop
            invariant
                all@ + self@ == old(self)@,
                self.closed() == old(self).closed(),
                self.limit() == old(self).limit(),
            ensures
                self@.len() == 0,
            decreases self@.len(),
        {
            match self.queue.pop_front() {
                Some(value) => {
                    all.push(value);
                },
                None => {
                    break ;
                },
            }
        }
        all
    }

    /// Closes the queue. Closing an already closed queue changes nothing;
    /// what is queued stays queued.
    pub fn close(&mut self)
        ensures
            final(self).closed(),
            final(self)@ == old(self)@,
            final(self).limit() == old(self).limit(),
    {
        self.closed = true;
    }

    /// Closes the queue from the consuming side: what is still queued is
    /// dropped, and nothing more is accepted.
    pub fn shut(&mut self)
        ensures
            final(self).closed(),
            final(self)@ == Seq::<T>::empty(),
            final(self).limit() == old(self).limit(),
    {
        self.closed = true;
        self.queue.clear();
    }
}

} // verus!
