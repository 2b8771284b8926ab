//! Events that an instance reports to its host, and the bounded queue that
//! carries them.
use vstd::prelude::*;

use crossbeam_channel::{Receiver, Sender};

verus! {

/// Number of events that an instance's queue holds before it drops new ones.
pub const EVENT_QUEUE_CAPACITY: usize = 1024;

/// A notable condition observed after the engine ran.
#[derive(Debug, Clone, Copy, PartialEq, Eq, Structural)]
pub enum VmEvent {
    Halted,
    Breakpoint(u64),
    Exception(u32),
    DeviceInterrupt(u32),
}

impl VmEvent {
    /// The kind code and payload under which the event is handed out.
    pub open spec fn spec_encode(self) -> (i32, u64) {
        match self {
            VmEvent::Halted => (0, 0),
            VmEvent::Breakpoint(addr) => (1, addr),
            VmEvent::Exception(code) => (2, code as u64),
            VmEvent::DeviceInterrupt(id) => (3, id as u64),
        }
    }

    pub fn encode(&self) -> (r: (i32, u64))
        ensures
            r == self.spec_encode(),
    {
        match self {
            VmEvent::Halted => (0, 0),
            VmEvent::Breakpoint(addr) => (1, *addr),
            VmEvent::Exception(code) => (2, *code as u64),
            VmEvent::DeviceInterrupt(id) => (3, *id as u64),
        }
    }
}

/// Both ends of one bounded crossbeam channel. Neither end is ever handed
/// out, so every message in the channel was sent through this value.
#[verifier::external_body]
pub struct EventChannel {
    tx: Sender<VmEvent>,
    rx: Receiver<VmEvent>,
}

/// The messages in the channel, oldest first.
pub uninterp spec fn channel_messages(c: EventChannel) -> Seq<VmEvent>;

/// The capacity that the channel was made with.
pub uninterp spec fn channel_capacity(c: EventChannel) -> nat;

/// Relies on `crossbeam_channel::bounded`: a new channel is empty and holds
/// up to `cap` messages.
#[verifier::external_body]
fn open_channel(cap: usize) -> (r: EventChannel)
    requires
        0 < cap <= EVENT_QUEUE_CAPACITY,
    ensures
        channel_messages(r) == Seq::<VmEvent>::empty(),
        channel_capacity(r) == cap,
{
    let (tx, rx) = crossbeam_channel::bounded(cap);
    EventChannel { tx, rx }
}

/// Relies on `crossbeam_channel::Sender::try_send`: while the receiving end is
/// alive, the message is appended unless the channel is full.
#[verifier::external_body]
fn channel_try_send(c: &mut EventChannel, e: VmEvent) -> (r: bool)
    ensures
        channel_capacity(*final(c)) == channel_capacity(*old(c)),
        r == (channel_messages(*old(c)).len() < channel_capacity(*old(c))),
        channel_messages(*final(c)) == (if r {
            channel_messages(*old(c)).push(e)
        } else {
            channel_messages(*old(c))
        }),
{
    c.tx.try_send(e).is_ok()
}

/// Relies on `crossbeam_channel::Receiver::try_recv`: takes the oldest message,
/// or reports that there is none.
#[verifier::external_body]
fn channel_try_recv(c: &mut EventChannel) -> (r: Option<VmEvent>)
    ensures
        channel_capacity(*final(c)) == channel_capacity(*old(c)),
        channel_messages(*old(c)).len() == 0 ==> r is None && channel_messages(*final(c))
            == channel_messages(*old(c)),
        channel_messages(*old(c)).len() > 0 ==> r == Some(channel_messages(*old(c))[0])
            && channel_messages(*final(c)) == channel_messages(*old(c)).drop_first(),
{
    c.rx.try_recv().ok()
}

/// The queue after an attempt to post `e`: appended when there is room,
/// dropped when the queue is full.
pub open spec fn posted(q: Seq<VmEvent>, cap: nat, e: VmEvent) -> Seq<VmEvent> {
    if q.len() < cap {
        q.push(e)
    } else {
        q
    }
}

/// The result of a poll on a queue that holds `q`, and what is left.
pub open spec fn polled(q: Seq<VmEvent>) -> (Option<VmEvent>, Seq<VmEvent>) {
    if q.len() == 0 {
        (None, q)
    } else {
        (Some(q[0]), q.drop_first())
    }
}

/// Bounded first-in first-out queue of events; posting never blocks.
pub struct EventQueue {
    chan: EventChannel,
}

impl View for EventQueue {
    type V = Seq<VmEvent>;

    closed spec fn view(&self) -> Seq<VmEvent> {
        channel_messages(self.chan)
    }
}

impl EventQueue {
    /// Number of events that the queue holds at most.
    pub closed spec fn capacity(&self) -> nat {
        channel_capacity(self.chan)
    }

    /// An empty queue of capacity `EVENT_QUEUE_CAPACITY`.
    pub fn new() -> (r: EventQueue)
        ensures
            r@ == Seq::<VmEvent>::empty(),
            r.capacity() == EVENT_QUEUE_CAPACITY,
    {
        EventQueue { chan: open_channel(EVENT_QUEUE_CAPACITY) }
    }

    /// Appends `e` when there is room and drops it otherwise; true when it was
    /// appended.
    pub fn post(&mut self, e: VmEvent) -> (r: bool)
        ensures
            final(self).capacity() == old(self).capacity(),
            final(self)@ == posted(old(self)@, old(self).capacity(), e),
            r == (old(self)@.len() < old(self).capacity()),
    {
        channel_try_send(&mut self.chan, e)
    }

    /// Takes the oldest event, if there is one; never blocks.
    pub fn poll(&mut self) -> (r: Option<VmEvent>)
        ensures
            final(self).capacity() == old(self).capacity(),
            (r, final(self)@) == polled(old(self)@),
    {
        channel_try_recv(&mut self.chan)
    }
}

} // verus!
