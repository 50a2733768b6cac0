//! The bounded first-in, first-out queue between producers and the
//! connection loop, kept in a bounded channel. A full queue refuses the
//! newcomer; it never evicts.

use crossbeam_channel::{Receiver, Sender};
use vstd::prelude::*;
use crate::event::IpFeeMsg;

verus! {

/// The most events that may wait at any time.
pub const MAX_BUFFERED_IPFEE_MESSAGES: usize = 10000;

/// The queue after one enqueue attempt: the event goes to the back while
/// there is room, and is dropped otherwise.
pub open spec fn enqueued(q: Seq<IpFeeMsg>, event: IpFeeMsg) -> Seq<IpFeeMsg> {
    if q.len() < MAX_BUFFERED_IPFEE_MESSAGES {
        q.push(event)
    } else {
        q
    }
}

/// The queue after enqueue attempts for each of `events`, in order.
pub open spec fn enqueued_all(q: Seq<IpFeeMsg>, events: Seq<IpFeeMsg>) -> Seq<IpFeeMsg>
    decreases events.len(),
{
    if events.len() == 0 {
        q
    } else {
        enqueued(enqueued_all(q, events.drop_last()), events.last())
    }
}

/// The number of events that wait after `offered` more are enqueued behind
/// `waiting`.
pub open spec fn kept_count(waiting: nat, offered: nat) -> nat {
    if waiting + offered <= MAX_BUFFERED_IPFEE_MESSAGES {
        waiting + offered
    } else {
        MAX_BUFFERED_IPFEE_MESSAGES as nat
    }
}

/// `crossbeam_channel::Sender`, the sending end of a channel. Opaque here.
#[verifier::external_type_specification]
#[verifier::external_body]
#[verifier::reject_recursive_types(T)]
pub struct ExSender<T>(crossbeam_channel::Sender<T>);

/// `crossbeam_channel::Receiver`, the receiving end of a channel. Opaque here.
#[verifier::external_type_specification]
#[verifier::external_body]
#[verifier::reject_recursive_types(T)]
pub struct ExReceiver<T>(crossbeam_channel::Receiver<T>);

/// The messages that wait in the channel behind `receiver`, oldest first.
pub uninterp spec fn channel_items(receiver: Receiver<IpFeeMsg>) -> Seq<IpFeeMsg>;

/// The capacity that the channel behind `receiver` was made with.
pub uninterp spec fn channel_limit(receiver: Receiver<IpFeeMsg>) -> nat;

/// A queue of at most `MAX_BUFFERED_IPFEE_MESSAGES` events, oldest first.
///
/// It is a bounded channel of which the queue holds both ends. It never
/// hands out or clones either, so nothing else sends or receives on the
/// channel and the channel is never disconnected: what waits in it changes
/// only through the methods below.
pub struct BoundedQueue {
    sender: Sender<IpFeeMsg>,
    receiver: Receiver<IpFeeMsg>,
}

impl View for BoundedQueue {
    type V = Seq<IpFeeMsg>;

    closed spec fn view(&self) -> Seq<IpFeeMsg> {
        channel_items(self.receiver)
    }
}

/// Calls `crossbeam_channel::bounded` with `limit` and keeps both ends.
/// Trusted: the new channel is empty and its capacity is `limit`. Zero is
/// left out because it makes a rendezvous channel, and large values because
/// `bounded` panics on a capacity that it cannot set up.
#[verifier::external_body]
fn channel_open(limit: usize) -> (q: BoundedQueue)
    requires
        0 < limit <= 0x10000,
    ensures
        channel_items(q.receiver) == Seq::<IpFeeMsg>::empty(),
        channel_limit(q.receiver) == limit,
{
    let (sender, receiver) = crossbeam_channel::bounded(limit);
    BoundedQueue { sender, receiver }
}

/// Calls `crossbeam_channel::Sender::try_send` on the queue's sending end.
/// Trusted: the message goes in behind those that wait exactly when fewer
/// than the capacity wait; otherwise the channel is full, the call reports an
/// error, and the channel keeps what it has.
#[verifier::external_body]
fn channel_try_send(q: &mut BoundedQueue, event: IpFeeMsg) -> (accepted: bool)
    requires
        channel_limit(old(q).receiver) > 0,
    ensures
        accepted <==> channel_items(old(q).receiver).len() < channel_limit(old(q).receiver),
        accepted ==> channel_items(final(q).receiver) == channel_items(old(q).receiver).push(
            event,
        ),
        !accepted ==> channel_items(final(q).receiver) == channel_items(old(q).receiver),
        channel_limit(final(q).receiver) == channel_limit(old(q).receiver),
{
    q.sender.try_send(event).is_ok()
}

/// Calls `crossbeam_channel::Receiver::recv` on the queue's receiving end.
/// Trusted: with a message waiting the call returns at once with the oldest
/// one and takes it out of the channel. An empty channel is left out: there
/// the call would wait for a sender.
#[verifier::external_body]
fn channel_recv(q: &mut BoundedQueue) -> (event: Option<IpFeeMsg>)
    requires
        channel_items(old(q).receiver).len() > 0,
    ensures
        event == Some(channel_items(old(q).receiver)[0]),
        channel_items(final(q).receiver) == channel_items(old(q).receiver).skip(1),
        channel_limit(final(q).receiver) == channel_limit(old(q).receiver),
{
    q.receiver.recv().ok()
}

/// Calls `crossbeam_channel::Receiver::len` on the queue's receiving end.
/// Trusted: the result is the number of messages that wait in the channel.
#[verifier::external_body]
fn channel_len(q: &BoundedQueue) -> (n: usize)
    ensures
        n == channel_items(q.receiver).len(),
{
    q.receiver.len()
}

impl BoundedQueue {
    /// The capacity of the channel that holds the events.
    pub closed spec fn limit(&self) -> nat {
        channel_limit(self.receiver)
    }

    /// The queue's invariant: its channel was made with the bound as its
    /// capacity, and no more than that wait.
    pub open spec fn wf(&self) -> bool {
        &&& self.limit() == MAX_BUFFERED_IPFEE_MESSAGES
        &&& self@.len() <= MAX_BUFFERED_IPFEE_MESSAGES
    }

    /// An empty queue.
    pub fn new() -> (q: Self)
        ensures
            q.wf(),
            q@ == Seq::<IpFeeMsg>::empty(),
    {
        channel_open(MAX_BUFFERED_IPFEE_MESSAGES)
    }

    /// Puts `event` at the back if there is room and says whether it did.
    /// A full queue stays exactly as it was.
    pub fn enqueue(&mut self, event: IpFeeMsg) -> (accepted: bool)
        requires
            old(self).wf(),
        ensures
            final(self).wf(),
            accepted <==> old(self)@.len() < MAX_BUFFERED_IPFEE_MESSAGES,
            final(self)@ == enqueued(old(self)@, event),
            accepted ==> final(self)@ == old(self)@.push(event),
            !accepted ==> final(self)@ == old(self)@,
    {
        channel_try_send(self, event)
    }

    /// Takes the oldest event, if any waits. Never waits itself.
    pub fn dequeue(&mut self) -> (event: Option<IpFeeMsg>)
        requires
            old(self).wf(),
        ensures
            final(self).wf(),
            old(self)@.len() == 0 ==> event is None && final(self)@ == old(self)@,
            old(self)@.len() > 0 ==> event == Some(old(self)@[0]) && final(self)@ == old(
                self,
            )@.skip(1),
    {
        if channel_len(self) > 0 {
            channel_recv(self)
        } else {
            None
        }
    }

    /// The number of events that wait.
    pub fn pending_count(&self) -> (n: usize)
        ensures
            n == self@.len(),
    {
        channel_len(self)
    }

    /// Discards every event that waits: counts them, then takes that many
    /// from the front. Returns the count.
    pub fn purge(&mut self) -> (discarded: usize)
        requires
            old(self).wf(),
        ensures
            final(self).wf(),
            discarded == old(self)@.len(),
            final(self)@ == Seq::<IpFeeMsg>::empty(),
    {
        let count: usize = channel_len(self);
        let mut taken: usize = 0;
        while taken < count
            invariant
                self.wf(),
                taken <= count,
                self@.len() == count - taken,
            decreases count - taken,
        {
            let _ = channel_recv(self);
            taken += 1;
        }
        assert(self@ =~= Seq::<IpFeeMsg>::empty());
        count
    }
}

/// Enqueueing a run of events keeps what waited and, of the newcomers, the
/// earliest that fit: the result is the front of `q + events`, cut at the
/// bound.
pub proof fn law_earliest_events_are_kept(q: Seq<IpFeeMsg>, events: Seq<IpFeeMsg>)
    requires
        q.len() <= MAX_BUFFERED_IPFEE_MESSAGES,
    ensures
        enqueued_all(q, events) == (q + events).take(kept_count(q.len(), events.len()) as int),
        enqueued_all(q, events).len() <= MAX_BUFFERED_IPFEE_MESSAGES,
    decreases events.len(),
{
    if events.len() == 0 {
        assert((q + events).take(q.len() as int) =~= q);
    } else {
        let front = events.drop_last();
        law_earliest_events_are_kept(q, front);
        let before = enqueued_all(q, front);
        assert(q + events =~= (q + front).push(events.last()));
        if q.len() + front.len() < MAX_BUFFERED_IPFEE_MESSAGES {
            assert((q + front).take((q.len() + front.len()) as int) =~= q + front);
            assert((q + events).take((q.len() + events.len()) as int) =~= q + events);
        } else {
            assert((q + events).take(MAX_BUFFERED_IPFEE_MESSAGES as int) =~= (q + front).take(
                MAX_BUFFERED_IPFEE_MESSAGES as int,
            ));
        }
    }
}

/// A queue at its bound is left as it was by any further enqueue attempts.
pub proof fn law_full_queue_is_unchanged(q: Seq<IpFeeMsg>, events: Seq<IpFeeMsg>)
    requires
        q.len() == MAX_BUFFERED_IPFEE_MESSAGES,
    ensures
        enqueued_all(q, events) == q,
    decreases events.len(),
{
    if events.len() > 0 {
        law_full_queue_is_unchanged(q, events.drop_last());
    }
}

} // verus!
