//! The channel as a mathematical object.
//!
//! A channel is a queue shared by its handles, a count of the senders that are
//! alive, and the batch that the receiver has already carried off to its own
//! side. Every operation of a handle is one step on this object. The steps are
//! written here as spec functions, and what the channel promises is proved of
//! them.

use vstd::prelude::*;

verus! {

/// What the lock guards: the values in flight and the number of live senders.
pub struct Monitor<T> {
    /// The values sent and not yet carried off by the receiver, oldest first.
    pub queue: Seq<T>,
    /// The number of sender handles that are alive.
    pub senders: nat,
}

impl<T> Monitor<T> {
    /// The monitor of a fresh channel: nothing queued, one sender.
    pub open spec fn initial() -> Self {
        Monitor { queue: Seq::empty(), senders: 1 }
    }

    /// A value joins the back of the queue.
    pub open spec fn push(self, t: T) -> Self {
        Monitor { queue: self.queue.push(t), senders: self.senders }
    }

    /// One more sender is alive.
    pub open spec fn attach(self) -> Self {
        Monitor { queue: self.queue, senders: self.senders + 1 }
    }

    /// One sender has gone.
    pub open spec fn detach(self) -> Self
        recommends
            self.senders > 0,
    {
        Monitor { queue: self.queue, senders: (self.senders - 1) as nat }
    }

    /// At least one sender is alive.
    pub open spec fn is_open(self) -> bool {
        self.senders > 0
    }

    /// Nothing is queued, yet a sender may still send: a receiver that finds
    /// the monitor so has to wait.
    pub open spec fn is_idle(self) -> bool {
        self.queue.len() == 0 && self.senders > 0
    }

    /// What a receiver that arrives is handed: the oldest queued value, if
    /// there is one.
    pub open spec fn taken(self) -> Option<T> {
        if self.queue.len() > 0 {
            Some(self.queue[0])
        } else {
            None
        }
    }

    /// The monitor after a receiver has arrived with `buffer`: where something
    /// was queued, the receiver's storage is left in the queue's place.
    pub open spec fn after_take(self, buffer: Seq<T>) -> Self {
        if self.queue.len() > 0 {
            Monitor { queue: buffer, senders: self.senders }
        } else {
            self
        }
    }

    /// The receiver's buffer after it has arrived with `buffer`: where
    /// something was queued, all of it but the value handed over.
    pub open spec fn carried_off(self, buffer: Seq<T>) -> Seq<T> {
        if self.queue.len() > 0 {
            self.queue.skip(1)
        } else {
            buffer
        }
    }
}

/// A whole channel: the monitor and the receiver's private buffer.
pub struct Channel<T> {
    /// What the handles share.
    pub shared: Monitor<T>,
    /// What the receiver has carried off and not yet handed out, oldest first.
    pub buffer: Seq<T>,
}

/// One operation on a handle of a channel.
pub enum Op<T> {
    /// A sender sends a value.
    Send(T),
    /// A sender is cloned.
    Clone,
    /// A sender is dropped.
    Drop,
    /// The receiver receives.
    Recv,
}

impl<T> Channel<T> {
    /// A fresh channel.
    pub open spec fn initial() -> Self {
        Channel { shared: Monitor::initial(), buffer: Seq::empty() }
    }

    /// Every value sent and not yet received, in the order of delivery.
    pub open spec fn pending(self) -> Seq<T> {
        self.buffer + self.shared.queue
    }

    /// At least one sender is alive.
    pub open spec fn is_open(self) -> bool {
        self.shared.is_open()
    }

    /// The end of the stream: no sender is left and nothing is left to receive.
    pub open spec fn is_finished(self) -> bool {
        !self.is_open() && self.pending().len() == 0
    }

    /// A receive returns at once rather than waiting.
    pub open spec fn can_recv(self) -> bool {
        self.buffer.len() > 0 || !self.shared.is_idle()
    }

    /// The channel after a send.
    pub open spec fn send(self, t: T) -> Self {
        Channel { shared: self.shared.push(t), buffer: self.buffer }
    }

    /// The channel after a sender has been cloned.
    pub open spec fn clone_sender(self) -> Self {
        Channel { shared: self.shared.attach(), buffer: self.buffer }
    }

    /// The channel after a sender has been dropped.
    pub open spec fn drop_sender(self) -> Self {
        Channel { shared: self.shared.detach(), buffer: self.buffer }
    }

    /// What a receive returns: the front of the buffer if there is one, else
    /// the front of the queue if there is one, else nothing.
    pub open spec fn received(self) -> Option<T> {
        if self.buffer.len() > 0 {
            Some(self.buffer[0])
        } else {
            self.shared.taken()
        }
    }

    /// The channel after a receive. With something in the buffer the monitor is
    /// not touched; otherwise the receiver goes to the monitor with its empty
    /// buffer.
    pub open spec fn recv(self) -> Self {
        if self.buffer.len() > 0 {
            Channel { shared: self.shared, buffer: self.buffer.skip(1) }
        } else {
            Channel {
                shared: self.shared.after_take(self.buffer),
                buffer: self.shared.carried_off(self.buffer),
            }
        }
    }

    /// The operation can be carried out now: those of a sender need a sender
    /// that is alive, a receive must not have to wait.
    pub open spec fn enabled(self, op: Op<T>) -> bool {
        match op {
            Op::Send(_) => self.is_open(),
            Op::Clone => self.is_open(),
            Op::Drop => self.is_open(),
            Op::Recv => self.can_recv(),
        }
    }

    /// The channel after one operation.
    pub open spec fn step(self, op: Op<T>) -> Self {
        match op {
            Op::Send(t) => self.send(t),
            Op::Clone => self.clone_sender(),
            Op::Drop => self.drop_sender(),
            Op::Recv => self.recv(),
        }
    }

    /// The channel after the operations of `ops`, first to last.
    pub open spec fn run(self, ops: Seq<Op<T>>) -> Self
        decreases ops.len(),
    {
        if ops.len() == 0 {
            self
        } else {
            self.run(ops.drop_last()).step(ops.last())
        }
    }

    /// Each operation of `ops` can be carried out when its turn comes.
    pub open spec fn admits(self, ops: Seq<Op<T>>) -> bool
        decreases ops.len(),
    {
        ops.len() > 0 ==> self.admits(ops.drop_last()) && self.run(ops.drop_last()).enabled(
            ops.last(),
        )
    }

    /// The values that the receives among `ops` return, first to last, when
    /// the operations are carried out on this channel.
    pub open spec fn delivered(self, ops: Seq<Op<T>>) -> Seq<T>
        decreases ops.len(),
    {
        if ops.len() == 0 {
            Seq::empty()
        } else if ops.last() is Recv && self.run(ops.drop_last()).received() is Some {
            self.delivered(ops.drop_last()).push(self.run(ops.drop_last()).received()->Some_0)
        } else {
            self.delivered(ops.drop_last())
        }
    }

    /// The channel after each value of `values` has been sent, first to last.
    pub open spec fn send_all(self, values: Seq<T>) -> Self
        decreases values.len(),
    {
        if values.len() == 0 {
            self
        } else {
            self.send_all(values.drop_last()).send(values.last())
        }
    }

    /// The channel after `n` receives.
    pub open spec fn recv_times(self, n: nat) -> Self
        decreases n,
    {
        if n == 0 {
            self
        } else {
            self.recv_times((n - 1) as nat).recv()
        }
    }
}

/// The values that the sends among `ops` carry, first to last.
pub open spec fn sent<T>(ops: Seq<Op<T>>) -> Seq<T>
    decreases ops.len(),
{
    if ops.len() == 0 {
        Seq::empty()
    } else if let Op::Send(t) = ops.last() {
        sent(ops.drop_last()).push(t)
    } else {
        sent(ops.drop_last())
    }
}

/// The number of clones among `ops`.
pub open spec fn clones<T>(ops: Seq<Op<T>>) -> nat
    decreases ops.len(),
{
    if ops.len() == 0 {
        0
    } else if ops.last() is Clone {
        clones(ops.drop_last()) + 1
    } else {
        clones(ops.drop_last())
    }
}

/// The number of drops among `ops`.
pub open spec fn drops<T>(ops: Seq<Op<T>>) -> nat
    decreases ops.len(),
{
    if ops.len() == 0 {
        0
    } else if ops.last() is Drop {
        drops(ops.drop_last()) + 1
    } else {
        drops(ops.drop_last())
    }
}

} // verus!
