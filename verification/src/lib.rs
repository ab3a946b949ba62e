//! A channel with many senders and one receiver.
//!
//! [`channel`] makes a [`Sender`] and a [`Receiver`] that share a queue behind
//! a lock. Senders can be cloned and sent to other threads; each value sent is
//! received once, in the order in which the sends took the lock. A receive
//! waits while the queue is empty and a sender is alive, and returns `None`
//! once the last sender is gone and everything sent has been received.

use crate::model::Channel;
use crate::model::Monitor;
use crate::sync::held;
use crate::sync::share;
use crate::sync::Shared;
use std::collections::VecDeque;
use std::sync::Arc;
use vstd::prelude::*;

pub mod inner;
pub mod laws;
pub mod model;
pub mod sync;

verus! {

/// The sending half of a channel. It can be cloned; the channel is open for
/// as long as one of the clones is alive.
#[verifier::reject_recursive_types(T)]
pub struct Sender<T> {
    shared: Arc<Shared<T>>,
}

/// The receiving half of a channel. There is one per channel.
#[verifier::reject_recursive_types(T)]
pub struct Receiver<T> {
    shared: Arc<Shared<T>>,
    buffer: VecDeque<T>,
}

impl<T> Sender<T> {
    /// The shared part of the channel that this handle belongs to.
    pub closed spec fn shared(&self) -> Shared<T> {
        *self.shared
    }

    /// Sends a value: puts it at the back of the queue under the lock, then
    /// wakes the receiver if it waits. It does not wait for the receiver and
    /// cannot fail. A poisoned lock is entered like any other: the value is
    /// queued all the same.
    pub fn send(&mut self, t: T)
        ensures
            final(self).shared() == old(self).shared(),
    {
        {
            let mut guard = self.shared.enter();
            held(&mut guard).push(t);
        }
        self.shared.signal();
    }
}

impl<T> Clone for Sender<T> {
    /// One more sender of the same channel, counted in under the lock before
    /// it exists. A poisoned lock is entered like any other: the sender is
    /// counted all the same.
    fn clone(&self) -> (other: Self)
        ensures
            other.shared() == self.shared(),
    {
        {
            let mut guard = self.shared.enter();
            held(&mut guard).count_in();
        }
        Sender { shared: share(&self.shared) }
    }
}

impl<T> Drop for Sender<T> {
    /// Counts the sender out under the lock, then wakes the receiver: this may
    /// have been the last sender, and the receiver may be waiting for a value
    /// that will now never come. A poisoned lock is entered like any other: a
    /// drop must not unwind.
    fn drop(&mut self)
        ensures
            final(self).shared() == old(self).shared(),
        opens_invariants none
        no_unwind
    {
        {
            let mut guard = self.shared.enter();
            held(&mut guard).count_out();
        }
        self.shared.signal();
    }
}

/// A receive that began with `buffer` and found the state `seen` behind the
/// lock, if it went there, has returned `item` and left `after` in the buffer:
/// it did not have to wait, and it did what a receive of the model does.
pub open spec fn recv_outcome<T>(
    buffer: Seq<T>,
    seen: Monitor<T>,
    item: Option<T>,
    after: Seq<T>,
) -> bool {
    let before = Channel { shared: seen, buffer };
    &&& before.can_recv()
    &&& item == before.received()
    &&& after == before.recv().buffer
}

impl<T> View for Receiver<T> {
    type V = Seq<T>;

    /// The values that the receiver has carried off from the queue and not
    /// yet handed out, oldest first.
    closed spec fn view(&self) -> Seq<T> {
        self.buffer@
    }
}

impl<T> Receiver<T> {
    /// The shared part of the channel that this handle belongs to.
    pub closed spec fn shared(&self) -> Shared<T> {
        *self.shared
    }

    /// Receives the next value, or `None` at the end of the stream.
    ///
    /// With a value in its buffer the receiver hands out the oldest one and
    /// leaves the lock alone. Otherwise it takes the lock, waits while nothing
    /// is queued and a sender is alive, and then carries off the whole queue
    /// at once: the oldest value is returned, the others fill the buffer.
    ///
    /// The state behind the lock is whatever the other threads have made of
    /// it. So the contract speaks of some state `seen`: the call returns what a
    /// receive of the model returns on the receiver's buffer and that state,
    /// which did not make it wait.
    ///
    /// A poisoned lock is entered like any other. Where the lock is found
    /// poisoned after a sleep, the wait is over: the receive does not sleep
    /// again, and returns what it finds queued, or `None`.
    pub fn recv(&mut self) -> (item: Option<T>)
        ensures
            final(self).shared() == old(self).shared(),
            exists|seen: Monitor<T>| #[trigger] recv_outcome(old(self)@, seen, item, final(self)@),
            old(self)@.len() > 0 ==> item == Some(old(self)@[0]),
            old(self)@.len() > 0 ==> final(self)@ == old(self)@.skip(1),
            item is None ==> final(self)@.len() == 0,
    {
        if let Some(t) = self.buffer.pop_front() {
            proof {
                let seen = Monitor::<T>::initial();
                assert(recv_outcome(old(self)@, seen, Some(t), self@));
            }
            return Some(t);
        }
        let mut slot = None;
        let (state, settled) = self.shared.enter_when_ready(&mut slot);
        let ghost seen = state@;
        let item = state.take(&mut self.buffer);
        proof {
            if settled || item is Some {
                assert(recv_outcome(old(self)@, seen, item, self@));
            } else {
                let ended = Monitor::<T> { queue: Seq::empty(), senders: 0 };
                assert(recv_outcome(old(self)@, ended, item, self@));
            }
        }
        item
    }

    /// The receiver read as a sequence: each call is one `recv`, and after the
    /// end of the stream every call returns `None`.
    pub fn next(&mut self) -> (item: Option<T>)
        ensures
            final(self).shared() == old(self).shared(),
            exists|seen: Monitor<T>| #[trigger] recv_outcome(old(self)@, seen, item, final(self)@),
            old(self)@.len() > 0 ==> item == Some(old(self)@[0]),
            old(self)@.len() > 0 ==> final(self)@ == old(self)@.skip(1),
            item is None ==> final(self)@.len() == 0,
    {
        self.recv()
    }
}

/// Makes a channel: a sender and a receiver that share a fresh state, with
/// nothing queued, nothing buffered and this one sender counted.
pub fn channel<T>() -> (ends: (Sender<T>, Receiver<T>))
    ensures
        ends.0.shared() == ends.1.shared(),
        ends.1@ == Seq::<T>::empty(),
{
    let shared = Arc::new(Shared::new());
    (Sender { shared: share(&shared) }, Receiver { shared, buffer: VecDeque::new() })
}

} // verus!
