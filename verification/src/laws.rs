//! What holds of the forwarder over whole runs of submissions and loop
//! steps, proved from the transitions that the functions' contracts use.

use vstd::prelude::*;
use crate::event::IpFeeMsg;
use crate::forwarder::{
    fresh, initialized, stepped, streamed, submitted, submitted_all, taken, ForwarderModel,
    LoopEvent, Phase,
};
use crate::queue::{
    enqueued_all, kept_count, law_earliest_events_are_kept, MAX_BUFFERED_IPFEE_MESSAGES,
};

verus! {

/// Before set-up, no run of submissions leaves anything behind, and no loop
/// step takes an event or changes the forwarder: nothing can reach the wire.
pub proof fn law_nothing_is_kept_before_setup(msgs: Seq<IpFeeMsg>, event: LoopEvent)
    ensures
        submitted_all(fresh(), msgs) == fresh(),
        stepped(submitted_all(fresh(), msgs), event) == fresh(),
        taken(submitted_all(fresh(), msgs), event) is None,
    decreases msgs.len(),
{
    if msgs.len() > 0 {
        law_nothing_is_kept_before_setup(msgs.drop_last(), event);
    }
}

/// Once set up, a second set-up attempt changes nothing, whatever address it
/// names and whatever happened in between.
pub proof fn law_setup_happens_once(m: ForwarderModel, second: Seq<char>)
    requires
        m.addr is Some,
    ensures
        initialized(m, second) == m,
        initialized(m, second).addr == m.addr,
{
}

/// Submissions and loop steps never change the address that set-up fixed.
pub proof fn law_address_is_fixed(m: ForwarderModel, msg: IpFeeMsg, event: LoopEvent)
    ensures
        submitted(m, msg).addr == m.addr,
        stepped(m, event).addr == m.addr,
{
}

/// After set-up, a run of submissions touches only the queue, which follows
/// its drop policy: what waited stays, and of the newcomers the earliest
/// that fit are kept, in the order in which they came.
pub proof fn law_submissions_keep_the_earliest(m: ForwarderModel, msgs: Seq<IpFeeMsg>)
    requires
        m.addr is Some,
        m.pending.len() <= MAX_BUFFERED_IPFEE_MESSAGES,
    ensures
        submitted_all(m, msgs) == (ForwarderModel {
            pending: enqueued_all(m.pending, msgs),
            ..m
        }),
        submitted_all(m, msgs).pending == (m.pending + msgs).take(
            kept_count(m.pending.len(), msgs.len()) as int,
        ),
        submitted_all(m, msgs).pending.len() <= MAX_BUFFERED_IPFEE_MESSAGES,
    decreases msgs.len(),
{
    law_earliest_events_are_kept(m.pending, msgs);
    if msgs.len() > 0 {
        law_submissions_keep_the_earliest(m, msgs.drop_last());
    }
}

/// A forwarder whose queue is at its bound is left exactly as it was by any
/// run of further submissions: each is dropped and nothing is evicted.
pub proof fn law_full_forwarder_drops_newcomers(m: ForwarderModel, msgs: Seq<IpFeeMsg>)
    requires
        m.pending.len() == MAX_BUFFERED_IPFEE_MESSAGES,
    ensures
        submitted_all(m, msgs) == m,
    decreases msgs.len(),
{
    if msgs.len() > 0 {
        law_full_forwarder_drops_newcomers(m, msgs.drop_last());
    }
}

/// While streaming, consecutive `Ready` steps take the events that wait from
/// the front, one by one, in the order in which they were queued.
pub proof fn law_streaming_is_first_in_first_out(m: ForwarderModel, steps: nat)
    requires
        m.addr is Some,
        m.phase == Phase::Streaming,
        steps <= m.pending.len(),
    ensures
        streamed(m, steps) == m.pending.take(steps as int),
    decreases steps,
{
    if steps == 0 {
        assert(m.pending.take(0) =~= Seq::<IpFeeMsg>::empty());
    } else {
        let next = stepped(m, LoopEvent::Ready);
        law_streaming_is_first_in_first_out(next, (steps - 1) as nat);
        assert(m.pending.take(steps as int) =~= seq![m.pending[0]] + m.pending.skip(1).take(
            steps - 1,
        ));
    }
}

/// A new connection discards whatever was submitted before it went live, and
/// what is submitted afterwards (as far as the queue holds it) is exactly what
/// the following `Ready` steps put on the wire, in submission order.
pub proof fn law_only_later_events_are_streamed(
    m: ForwarderModel,
    earlier: Seq<IpFeeMsg>,
    later: Seq<IpFeeMsg>,
)
    requires
        m.addr is Some,
        m.pending.len() <= MAX_BUFFERED_IPFEE_MESSAGES,
        later.len() <= MAX_BUFFERED_IPFEE_MESSAGES,
    ensures
        stepped(submitted_all(m, earlier), LoopEvent::Connected).pending == Seq::<
            IpFeeMsg,
        >::empty(),
        stepped(submitted_all(m, earlier), LoopEvent::Connected).phase == Phase::Streaming,
        streamed(
            submitted_all(stepped(submitted_all(m, earlier), LoopEvent::Connected), later),
            later.len(),
        ) == later,
{
    law_submissions_keep_the_earliest(m, earlier);
    let live = stepped(submitted_all(m, earlier), LoopEvent::Connected);
    law_submissions_keep_the_earliest(live, later);
    let after = submitted_all(live, later);
    assert(live.pending + later =~= later);
    assert(later.take(later.len() as int) =~= later);
    law_streaming_is_first_in_first_out(after, later.len());
}

} // verus!
