//! The state that the handles of one channel share, and the steps they take
//! on it while they hold the lock.

use crate::model::Monitor;
use std::collections::VecDeque;
use vstd::prelude::*;

verus! {

/// What the lock guards: the queue and the count of live senders. The two are
/// read and written together, since the end of the stream is a fact about
/// both.
pub struct Inner<T> {
    queue: VecDeque<T>,
    senders: usize,
}

impl<T> View for Inner<T> {
    type V = Monitor<T>;

    closed spec fn view(&self) -> Monitor<T> {
        Monitor { queue: self.queue@, senders: self.senders as nat }
    }
}

impl<T> Inner<T> {
    /// The state of a fresh channel: nothing queued, one sender.
    pub fn new() -> (inner: Self)
        ensures
            inner@ == Monitor::<T>::initial(),
    {
        Inner { queue: VecDeque::new(), senders: 1 }
    }

    /// The number of live senders.
    pub fn senders(&self) -> (n: usize)
        ensures
            n == self@.senders,
    {
        self.senders
    }

    /// The number of queued values.
    pub fn queued(&self) -> (n: usize)
        ensures
            n == self@.queue.len(),
    {
        self.queue.len()
    }

    /// Puts a value at the back of the queue.
    pub fn push(&mut self, t: T)
        ensures
            final(self)@ == old(self)@.push(t),
    {
        self.queue.push_back(t);
    }

    /// Whether one more sender can be counted.
    pub fn can_attach(&self) -> (room: bool)
        ensures
            room == (self@.senders < usize::MAX),
    {
        self.senders < usize::MAX
    }

    /// Counts one more sender.
    pub fn attach(&mut self)
        requires
            old(self)@.senders < usize::MAX,
        ensures
            final(self)@ == old(self)@.attach(),
    {
        self.senders = self.senders + 1;
    }

    /// Counts one more sender, unless the count has reached the largest number
    /// that a `usize` holds: it is then left as it is.
    pub fn count_in(&mut self)
        ensures
            final(self)@ == if old(self)@.senders < usize::MAX {
                old(self)@.attach()
            } else {
                old(self)@
            },
    {
        if self.can_attach() {
            self.attach();
        }
    }

    /// Whether a sender is alive.
    pub fn is_open(&self) -> (open: bool)
        ensures
            open == self@.is_open(),
        opens_invariants none
        no_unwind
    {
        self.senders > 0
    }

    /// Counts one sender less.
    pub fn detach(&mut self)
        requires
            old(self)@.is_open(),
        ensures
            final(self)@ == old(self)@.detach(),
        opens_invariants none
        no_unwind
    {
        self.senders = self.senders - 1;
    }

    /// Counts one sender less, unless none is counted: the count is then left
    /// as it is.
    pub fn count_out(&mut self)
        ensures
            final(self)@ == if old(self)@.is_open() {
                old(self)@.detach()
            } else {
                old(self)@
            },
        opens_invariants none
        no_unwind
    {
        if self.is_open() {
            self.detach();
        }
    }

    /// Whether a receiver has to wait: nothing is queued, and a sender is
    /// alive that may yet send.
    pub fn is_idle(&self) -> (idle: bool)
        ensures
            idle == self@.is_idle(),
    {
        self.queue.len() == 0 && self.senders > 0
    }

    /// Hands the receiver the oldest queued value and moves the others into
    /// its buffer in one go, leaving the buffer's old storage in their place.
    /// With nothing queued it returns `None` and changes nothing.
    pub fn take(&mut self, buffer: &mut VecDeque<T>) -> (item: Option<T>)
        ensures
            item == old(self)@.taken(),
            final(self)@ == old(self)@.after_take(old(buffer)@),
            final(buffer)@ == old(self)@.carried_off(old(buffer)@),
    {
        match self.queue.pop_front() {
            Some(t) => {
                std::mem::swap(buffer, &mut self.queue);
                Some(t)
            },
            None => None,
        }
    }
}

} // verus!
