//! What a channel promises, proved of the model.

use crate::model::Channel;
use crate::model::Op;
use crate::model::clones;
use crate::model::drops;
use crate::model::sent;
use vstd::prelude::*;

verus! {

/// Sending one value after another puts them behind what was pending, in the
/// order of sending, and changes nothing else.
pub proof fn law_sends_append<T>(c: Channel<T>, values: Seq<T>)
    ensures
        c.send_all(values).pending() == c.pending() + values,
        c.send_all(values).buffer == c.buffer,
        c.send_all(values).shared.senders == c.shared.senders,
    decreases values.len(),
{
    if values.len() > 0 {
        let before = values.drop_last();
        law_sends_append(c, before);
        assert((c.pending() + before).push(values.last()) =~= c.pending() + values);
    }
}

/// While the receiver's buffer and the queue are not both empty, a receive
/// returns at once with the oldest pending value and leaves the rest pending,
/// in their order; the senders are not touched.
pub proof fn law_recv_takes_oldest<T>(c: Channel<T>)
    requires
        c.pending().len() > 0,
    ensures
        c.can_recv(),
        c.received() == Some(c.pending()[0]),
        c.recv().pending() == c.pending().skip(1),
        c.recv().shared.senders == c.shared.senders,
{
}

/// After `n` receives, with at least `n` values pending, the first `n` of them
/// are gone and the others are pending as before.
pub proof fn law_receives_consume_prefix<T>(c: Channel<T>, n: nat)
    requires
        n <= c.pending().len(),
    ensures
        c.recv_times(n).pending() == c.pending().skip(n as int),
        c.recv_times(n).shared.senders == c.shared.senders,
    decreases n,
{
    if n > 0 {
        let m = (n - 1) as nat;
        law_receives_consume_prefix(c, m);
        law_recv_takes_oldest(c.recv_times(m));
    }
}

/// Values sent one after another into a channel with nothing pending are
/// received in the order in which they were sent: the receive that follows
/// `i` earlier ones returns at once, with the value sent at place `i`.
pub proof fn law_values_arrive_in_order<T>(c: Channel<T>, values: Seq<T>, i: int)
    requires
        c.pending().len() == 0,
        0 <= i < values.len(),
    ensures
        c.send_all(values).recv_times(i as nat).can_recv(),
        c.send_all(values).recv_times(i as nat).received() == Some(values[i]),
{
    let full = c.send_all(values);
    law_sends_append(c, values);
    law_receives_consume_prefix(full, i as nat);
    law_recv_takes_oldest(full.recv_times(i as nat));
}

/// Nothing is lost, nothing arrives twice, and nothing overtakes: whatever
/// the handles do and in whatever order, the values received so far, followed
/// by those still pending, are the values that were pending at first, followed
/// by those sent since, in the order of the sends.
pub proof fn law_received_then_pending_is_sent<T>(c: Channel<T>, ops: Seq<Op<T>>)
    ensures
        c.delivered(ops) + c.run(ops).pending() == c.pending() + sent(ops),
    decreases ops.len(),
{
    if ops.len() > 0 {
        let before = ops.drop_last();
        let at = c.run(before);
        law_received_then_pending_is_sent(c, before);
        match ops.last() {
            Op::Send(t) => {
                assert((c.pending() + sent(before)).push(t) =~= c.pending() + sent(ops));
            },
            Op::Clone => {},
            Op::Drop => {},
            Op::Recv => {
                if at.pending().len() > 0 {
                    law_recv_takes_oldest(at);
                }
            },
        }
    }
}

/// A send ends the wait: in the state that it leaves behind, a receive returns
/// at once, and with a value. The receiver is signalled after each send, and
/// tests the state under the lock before it sleeps and after it wakes.
pub proof fn law_send_ends_the_wait<T>(c: Channel<T>, t: T)
    ensures
        c.send(t).can_recv(),
        c.send(t).received() is Some,
{
}

/// The drop of the last sender ends the wait: in the state that it leaves
/// behind, a receive returns at once. The receiver is signalled after each
/// drop.
pub proof fn law_last_drop_ends_the_wait<T>(c: Channel<T>)
    requires
        c.shared.senders == 1,
    ensures
        c.drop_sender().can_recv(),
        !c.drop_sender().is_open(),
{
}

/// A receive returns nothing only at the end of the stream.
pub proof fn law_nothing_means_finished<T>(c: Channel<T>)
    requires
        c.can_recv(),
    ensures
        c.received() is None <==> c.is_finished(),
{
}

/// The end of the stream is final. Once a receive has returned nothing, the
/// only operation that can still be carried out is a receive, it leaves the
/// channel as it is, and so every later receive returns nothing too.
pub proof fn law_end_of_stream_is_final<T>(c: Channel<T>, ops: Seq<Op<T>>)
    requires
        c.can_recv(),
        c.received() is None,
        c.admits(ops),
    ensures
        forall|i: int| 0 <= i < ops.len() ==> ops[i] is Recv,
        c.run(ops) == c,
        c.run(ops).can_recv(),
        c.run(ops).received() is None,
    decreases ops.len(),
{
    if ops.len() > 0 {
        let before = ops.drop_last();
        law_end_of_stream_is_final(c, before);
        assert forall|i: int| 0 <= i < ops.len() implies ops[i] is Recv by {
            if i < before.len() {
                assert(ops[i] == before[i]);
            }
        }
    }
}

/// The count of live senders is the one the channel began with, plus the
/// clones, minus the drops; no more senders are dropped than ever lived.
pub proof fn law_senders_are_counted<T>(c: Channel<T>, ops: Seq<Op<T>>)
    requires
        c.admits(ops),
    ensures
        drops(ops) <= c.shared.senders + clones(ops),
        c.run(ops).shared.senders == c.shared.senders + clones(ops) - drops(ops),
    decreases ops.len(),
{
    if ops.len() > 0 {
        law_senders_are_counted(c, ops.drop_last());
    }
}

/// A fresh channel, after `k` clones and `j` drops of senders in any order in
/// which they can happen, is open exactly when `k + 1 - j` is positive.
pub proof fn law_open_while_senders_remain<T>(ops: Seq<Op<T>>)
    requires
        Channel::<T>::initial().admits(ops),
    ensures
        drops(ops) <= clones(ops) + 1,
        Channel::<T>::initial().run(ops).is_open() <==> clones(ops) + 1 - drops(ops) > 0,
{
    law_senders_are_counted(Channel::<T>::initial(), ops);
}

/// Closing is for good: a channel without senders gets none again.
pub proof fn law_closed_stays_closed<T>(c: Channel<T>, ops: Seq<Op<T>>)
    requires
        !c.is_open(),
        c.admits(ops),
    ensures
        !c.run(ops).is_open(),
        forall|i: int| 0 <= i < ops.len() ==> ops[i] is Recv,
    decreases ops.len(),
{
    if ops.len() > 0 {
        let before = ops.drop_last();
        law_closed_stays_closed(c, before);
        assert forall|i: int| 0 <= i < ops.len() implies ops[i] is Recv by {
            if i < before.len() {
                assert(ops[i] == before[i]);
            }
        }
    }
}

} // verus!
