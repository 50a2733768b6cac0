//! The forwarder: its one-time set-up, the producers' entry point, and the
//! decisions of the connection loop.
//!
//! The loop itself runs outside this library. It performs the action that
//! `IpFee::advance` hands back (connect, wait, write) and reports what came
//! of it as the next `LoopEvent`.

use vstd::prelude::*;
use crate::event::IpFeeMsg;
use crate::queue::{enqueued, BoundedQueue, MAX_BUFFERED_IPFEE_MESSAGES};
use crate::wire::{encode, encoded, wire_bytes, EncodeError};

verus! {

/// The pause between two connection attempts, in milliseconds.
pub const RETRY_INTERVAL_MILLIS: u64 = 1000;

/// Where the connection loop stands.
#[derive(Clone, Copy, Debug, PartialEq, Eq)]
pub enum Phase {
    /// No live connection; the loop is trying to open one.
    Connecting,
    /// A connection is live and events are written to it.
    Streaming,
}

/// What the loop reports to the forwarder.
#[derive(Clone, Copy, Debug, PartialEq, Eq)]
pub enum LoopEvent {
    /// A connection attempt failed.
    ConnectFailed,
    /// A connection attempt succeeded.
    Connected,
    /// The loop is free to write: the last write went through, the last
    /// event was skipped, or a producer has submitted something.
    Ready,
    /// A write to the live connection failed.
    WriteFailed,
}

/// What the loop has to do next.
#[derive(Debug, PartialEq, Eq)]
pub enum LoopAction {
    /// Nothing: the forwarder was never set up, so no loop exists.
    Idle,
    /// Open a connection to the forwarder's address now.
    Connect,
    /// Pause for this many milliseconds, then open a connection.
    RetryAfter { millis: u64 },
    /// Write these bytes to the live connection.
    Write(Vec<u8>),
    /// The event taken from the queue could not be encoded and is dropped.
    Skip,
    /// Nothing waits; block until a producer submits.
    Wait,
}

/// The forwarder as a mathematical value.
pub struct ForwarderModel {
    /// The collector's address, once set up.
    pub addr: Option<Seq<char>>,
    pub phase: Phase,
    /// The events that wait, oldest first.
    pub pending: Seq<IpFeeMsg>,
}

/// The forwarder before set-up.
pub open spec fn fresh() -> ForwarderModel {
    ForwarderModel { addr: None, phase: Phase::Connecting, pending: Seq::empty() }
}

/// The forwarder after a set-up attempt with `addr`: only the first counts.
pub open spec fn initialized(m: ForwarderModel, addr: Seq<char>) -> ForwarderModel {
    if m.addr is Some {
        m
    } else {
        ForwarderModel { addr: Some(addr), phase: Phase::Connecting, pending: Seq::empty() }
    }
}

/// The forwarder after a producer submits `msg`: before set-up nothing is
/// kept, afterwards the queue's drop policy decides.
pub open spec fn submitted(m: ForwarderModel, msg: IpFeeMsg) -> ForwarderModel {
    if m.addr is None {
        m
    } else {
        ForwarderModel { pending: enqueued(m.pending, msg), ..m }
    }
}

/// The forwarder after producers submit each of `msgs`, in order.
pub open spec fn submitted_all(m: ForwarderModel, msgs: Seq<IpFeeMsg>) -> ForwarderModel
    decreases msgs.len(),
{
    if msgs.len() == 0 {
        m
    } else {
        submitted(submitted_all(m, msgs.drop_last()), msgs.last())
    }
}

/// The event that a loop step takes from the queue to put on the wire, if
/// it takes one: the oldest, and only while streaming.
pub open spec fn taken(m: ForwarderModel, event: LoopEvent) -> Option<IpFeeMsg> {
    if m.addr is Some && event == LoopEvent::Ready && m.phase == Phase::Streaming
        && m.pending.len() > 0 {
        Some(m.pending[0])
    } else {
        None
    }
}

/// The forwarder after the loop reports `event`.
pub open spec fn stepped(m: ForwarderModel, event: LoopEvent) -> ForwarderModel {
    if m.addr is None {
        m
    } else {
        match event {
            LoopEvent::ConnectFailed => ForwarderModel { phase: Phase::Connecting, ..m },
            LoopEvent::Connected => ForwarderModel {
                phase: Phase::Streaming,
                pending: Seq::empty(),
                ..m
            },
            LoopEvent::Ready => if taken(m, event) is Some {
                ForwarderModel { pending: m.pending.skip(1), ..m }
            } else {
                m
            },
            LoopEvent::WriteFailed => ForwarderModel { phase: Phase::Connecting, ..m },
        }
    }
}

/// The events that `steps` consecutive `Ready` reports take from the queue,
/// in the order in which they go to the wire.
pub open spec fn streamed(m: ForwarderModel, steps: nat) -> Seq<IpFeeMsg>
    decreases steps,
{
    if steps == 0 {
        Seq::empty()
    } else {
        match taken(m, LoopEvent::Ready) {
            Some(msg) => seq![msg] + streamed(
                stepped(m, LoopEvent::Ready),
                (steps - 1) as nat,
            ),
            None => Seq::empty(),
        }
    }
}

/// The forwarder's state: the collector's address once set up, the phase of
/// the connection loop, and the queue.
pub struct IpFee {
    addr: Option<String>,
    phase: Phase,
    queue: BoundedQueue,
}

impl View for IpFee {
    type V = ForwarderModel;

    closed spec fn view(&self) -> ForwarderModel {
        ForwarderModel {
            addr: match self.addr {
                Some(a) => Some(a@),
                None => None,
            },
            phase: self.phase,
            pending: self.queue@,
        }
    }
}

/// The action for an event that was taken from the queue, given what the
/// encoder made of it.
pub fn outgoing(encoded: Result<Vec<u8>, EncodeError>) -> (action: LoopAction)
    ensures
        encoded matches Ok(bytes) ==> action == LoopAction::Write(bytes),
        encoded is Err ==> action == LoopAction::Skip,
{
    match encoded {
        Ok(bytes) => LoopAction::Write(bytes),
        Err(_) => LoopAction::Skip,
    }
}

impl IpFee {
    /// The invariant of the queue that the forwarder holds.
    pub closed spec fn queue_wf(&self) -> bool {
        self.queue.wf()
    }

    /// The invariant: the queue is sound and within its bound, and before
    /// set-up nothing waits.
    pub open spec fn wf(&self) -> bool {
        &&& self.queue_wf()
        &&& self@.pending.len() <= MAX_BUFFERED_IPFEE_MESSAGES
        &&& self@.addr is None ==> self@ == fresh()
    }

    /// A forwarder that has not been set up.
    pub fn new() -> (fee: Self)
        ensures
            fee.wf(),
            fee@ == fresh(),
    {
        IpFee { addr: None, phase: Phase::Connecting, queue: BoundedQueue::new() }
    }

    /// Whether the forwarder has been set up.
    pub fn is_initialized(&self) -> (yes: bool)
        ensures
            yes <==> self@.addr is Some,
    {
        self.addr.is_some()
    }

    /// The collector's address, once set up.
    pub fn address(&self) -> (addr: Option<String>)
        ensures
            addr is Some <==> self@.addr is Some,
            addr matches Some(a) ==> self@.addr == Some(a@),
    {
        match &self.addr {
            Some(a) => Some(a.clone()),
            None => None,
        }
    }

    /// The phase of the connection loop.
    pub fn phase(&self) -> (phase: Phase)
        ensures
            phase == self@.phase,
    {
        self.phase
    }

    /// The number of events that wait.
    pub fn pending_count(&self) -> (n: usize)
        ensures
            n == self@.pending.len(),
    {
        self.queue.pending_count()
    }

    /// One decision of the connection loop.
    ///
    /// Before set-up there is no loop: the answer is `Idle` and nothing
    /// changes. A failed attempt is retried after the fixed pause. A new
    /// connection discards everything that waits. While streaming, `Ready`
    /// takes the oldest event and hands back its wire bytes, or `Skip` where
    /// the integer encoder reports an error on it. A failed write ends the
    /// streaming phase.
    pub fn advance(&mut self, event: LoopEvent) -> (action: LoopAction)
        requires
            old(self).wf(),
        ensures
            final(self).wf(),
            final(self)@ == stepped(old(self)@, event),
            old(self)@.addr is None ==> action == LoopAction::Idle,
            old(self)@.addr is Some ==> match event {
                LoopEvent::ConnectFailed => action == (LoopAction::RetryAfter {
                    millis: RETRY_INTERVAL_MILLIS,
                }),
                LoopEvent::Connected => action == LoopAction::Wait,
                LoopEvent::WriteFailed => action == LoopAction::Connect,
                LoopEvent::Ready => match taken(old(self)@, event) {
                    Some(msg) => match encoded(msg) {
                        Some(record) => action matches LoopAction::Write(bytes) && bytes@ == record
                            && bytes@ == wire_bytes(msg),
                        None => action == LoopAction::Skip,
                    },
                    None => if old(self)@.phase == Phase::Streaming {
                        action == LoopAction::Wait
                    } else {
                        action == LoopAction::Connect
                    },
                },
            },
    {
        if self.addr.is_none() {
            return LoopAction::Idle;
        }
        match event {
            LoopEvent::ConnectFailed => {
                self.phase = Phase::Connecting;
                LoopAction::RetryAfter { millis: RETRY_INTERVAL_MILLIS }
            },
            LoopEvent::Connected => {
                self.queue.purge();
                self.phase = Phase::Streaming;
                LoopAction::Wait
            },
            LoopEvent::WriteFailed => {
                self.phase = Phase::Connecting;
                LoopAction::Connect
            },
            LoopEvent::Ready => match self.phase {
                Phase::Connecting => LoopAction::Connect,
                Phase::Streaming => match self.queue.dequeue() {
                    Some(msg) => outgoing(encode(&msg)),
                    None => LoopAction::Wait,
                },
            },
        }
    }
}

/// Sets the forwarder up for the collector at `addr` and says whether this
/// call did so: then, and only then, the caller starts the connection loop.
/// Any call after the first changes nothing and answers `false`.
pub fn ipfee_connect(fee: &mut IpFee, addr: &str) -> (started: bool)
    requires
        old(fee).wf(),
    ensures
        final(fee).wf(),
        started <==> old(fee)@.addr is None,
        final(fee)@ == initialized(old(fee)@, addr@),
        old(fee)@.addr is Some ==> final(fee)@ == old(fee)@,
        final(fee)@.addr is Some,
{
    if fee.addr.is_some() {
        return false;
    }
    fee.addr = Some(addr.to_owned());
    true
}

/// Hands `msg` to the forwarder without waiting. It is dropped if the
/// forwarder has not been set up or the queue is full; what already waits is
/// never touched.
pub fn ipfee_send(fee: &mut IpFee, msg: IpFeeMsg)
    requires
        old(fee).wf(),
    ensures
        final(fee).wf(),
        final(fee)@ == submitted(old(fee)@, msg),
        old(fee)@.addr is None ==> final(fee)@ == old(fee)@,
        old(fee)@.pending.len() >= MAX_BUFFERED_IPFEE_MESSAGES ==> final(fee)@ == old(fee)@,
        old(fee)@.addr is Some && old(fee)@.pending.len() < MAX_BUFFERED_IPFEE_MESSAGES
            ==> final(fee)@.pending == old(fee)@.pending.push(msg),
        final(fee)@.addr == old(fee)@.addr,
        final(fee)@.phase == old(fee)@.phase,
{
    if fee.addr.is_some() {
        let _ = fee.queue.enqueue(msg);
    }
}

} // verus!
