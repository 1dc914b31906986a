//! Event queues and the single-slot frame mailbox, both kept in
//! `crossbeam` channels.
//!
//! A channel has two ends that share one queue. Each type here owns both
//! ends of its channel, never clones one and never hands one out, so the
//! queue changes only through the methods of the type that owns it. That is
//! what lets a contract speak of what waits in a channel.

use vstd::prelude::*;
use crossbeam::channel::{Receiver, Sender};
use crate::input::{Event, EventView};

verus! {

/// `crossbeam::channel::Sender`, the sending end of a channel. Nothing is
/// known of what is inside.
#[verifier::external_type_specification]
#[verifier::external_body]
#[verifier::reject_recursive_types(T)]
pub struct ExSender<T>(Sender<T>);

/// `crossbeam::channel::Receiver`, the receiving end of a channel. Nothing is
/// known of what is inside.
#[verifier::external_type_specification]
#[verifier::external_body]
#[verifier::reject_recursive_types(T)]
pub struct ExReceiver<T>(Receiver<T>);

/// The events waiting in the channel that `rx` receives from, oldest first.
pub uninterp spec fn queued_events(rx: Receiver<Event>) -> Seq<EventView>;

/// Whether `tx` and `rx` are the two ends of one unbounded channel.
pub uninterp spec fn feeds_events(tx: Sender<Event>, rx: Receiver<Event>) -> bool;

/// `crossbeam::channel::unbounded`: the two ends of a new channel, in which
/// nothing waits yet.
#[verifier::external_body]
fn unbounded_events() -> (ends: (Sender<Event>, Receiver<Event>))
    ensures
        queued_events(ends.1) == Seq::<EventView>::empty(),
        feeds_events(ends.0, ends.1),
{
    crossbeam::channel::unbounded()
}

/// An unbounded first-in, first-out queue of input events.
pub struct EventChannel {
    tx: Sender<Event>,
    rx: Receiver<Event>,
}

/// `Sender::send` on an unbounded channel whose two ends are both at hand:
/// the message goes behind those already waiting. Such a send fails only
/// when every receiver is gone, and the channel's receiver is right here.
#[verifier::external_body]
fn send_event(channel: &mut EventChannel, event: Event)
    requires
        feeds_events(old(channel).tx, old(channel).rx),
    ensures
        queued_events(final(channel).rx) == queued_events(old(channel).rx).push(event@),
        feeds_events(final(channel).tx, final(channel).rx),
{
    let _ = channel.tx.send(event);
}

/// `Receiver::try_recv` on a channel whose two ends are both at hand: takes
/// the oldest waiting message out of the channel, or gives nothing when none
/// waits. It never blocks.
#[verifier::external_body]
fn try_recv_event(channel: &mut EventChannel) -> (got: Option<Event>)
    requires
        feeds_events(old(channel).tx, old(channel).rx),
    ensures
        match got {
            Some(event) => {
                &&& queued_events(old(channel).rx).len() > 0
                &&& event@ == queued_events(old(channel).rx)[0]
                &&& queued_events(final(channel).rx) == queued_events(old(channel).rx).drop_first()
            },
            None => {
                &&& queued_events(old(channel).rx).len() == 0
                &&& queued_events(final(channel).rx) == queued_events(old(channel).rx)
            },
        },
        feeds_events(final(channel).tx, final(channel).rx),
{
    channel.rx.try_recv().ok()
}

impl View for EventChannel {
    type V = Seq<EventView>;

    /// The events waiting in the queue, oldest first.
    closed spec fn view(&self) -> Seq<EventView> {
        queued_events(self.rx)
    }
}

impl EventChannel {
    #[verifier::type_invariant]
    spec fn linked(self) -> bool {
        feeds_events(self.tx, self.rx)
    }

    /// An empty queue.
    pub fn new() -> (channel: EventChannel)
        ensures
            channel@ == Seq::<EventView>::empty(),
    {
        let (tx, rx) = unbounded_events();
        EventChannel { tx, rx }
    }

    /// Appends `event` behind the events already waiting. This never blocks
    /// and never fails: the queue has no limit.
    pub fn send(&mut self, event: Event)
        ensures
            final(self)@ == old(self)@.push(event@),
    {
        proof {
            use_type_invariant(&*self);
        }
        send_event(self, event);
    }

    /// Takes the oldest waiting event out of the queue, or gives `None` if
    /// the queue is empty. This never blocks.
    pub fn try_recv(&mut self) -> (got: Option<Event>)
        ensures
            match got {
                Some(event) => old(self)@.len() > 0 && event@ == old(self)@[0] && final(self)@
                    == old(self)@.drop_first(),
                None => old(self)@.len() == 0 && final(self)@ == old(self)@,
            },
    {
        proof {
            use_type_invariant(&*self);
        }
        try_recv_event(self)
    }
}

/// The frame numbers waiting in the channel that `rx` receives from, oldest
/// first.
pub uninterp spec fn queued_frames(rx: Receiver<u64>) -> Seq<u64>;

/// The number of messages the channel behind `rx` was made to hold.
pub uninterp spec fn frame_capacity(rx: Receiver<u64>) -> nat;

/// Whether `tx` and `rx` are the two ends of one bounded channel.
pub uninterp spec fn feeds_frames(tx: Sender<u64>, rx: Receiver<u64>) -> bool;

/// `crossbeam::channel::bounded` with a positive capacity: the two ends of a
/// new channel that has room for `cap` messages and in which nothing waits
/// yet. It panics on a capacity too large to set the channel up, which the
/// bound here keeps far away.
#[verifier::external_body]
fn bounded_frames(cap: usize) -> (ends: (Sender<u64>, Receiver<u64>))
    requires
        0 < cap <= 65536,
    ensures
        queued_frames(ends.1) == Seq::<u64>::empty(),
        frame_capacity(ends.1) == cap,
        feeds_frames(ends.0, ends.1),
{
    crossbeam::channel::bounded(cap)
}

/// A single-slot mailbox that hands one frame number from the task that
/// publishes it to the task that picks it up.
///
/// A frame left in the slot is never overwritten: publishing into an
/// occupied slot fails, and so does taking from an empty one.
pub struct Mailbox {
    tx: Sender<u64>,
    rx: Receiver<u64>,
}

/// `Sender::try_send` on a bounded channel whose two ends are both at hand:
/// the message goes behind those already waiting if the channel has room
/// for it, and is refused if the channel is full. It never blocks. The only
/// other way to fail is that every receiver is gone, and the channel's
/// receiver is right here.
#[verifier::external_body]
fn try_send_frame(slot: &mut Mailbox, frame: u64) -> (sent: bool)
    requires
        feeds_frames(old(slot).tx, old(slot).rx),
    ensures
        sent <==> queued_frames(old(slot).rx).len() < frame_capacity(old(slot).rx),
        sent ==> queued_frames(final(slot).rx) == queued_frames(old(slot).rx).push(frame),
        !sent ==> queued_frames(final(slot).rx) == queued_frames(old(slot).rx),
        frame_capacity(final(slot).rx) == frame_capacity(old(slot).rx),
        feeds_frames(final(slot).tx, final(slot).rx),
{
    slot.tx.try_send(frame).is_ok()
}

/// `Receiver::try_recv` on a channel whose two ends are both at hand: takes
/// the oldest waiting message out of the channel, or gives nothing when none
/// waits. It never blocks.
#[verifier::external_body]
fn try_recv_frame(slot: &mut Mailbox) -> (got: Option<u64>)
    requires
        feeds_frames(old(slot).tx, old(slot).rx),
    ensures
        match got {
            Some(frame) => {
                &&& queued_frames(old(slot).rx).len() > 0
                &&& frame == queued_frames(old(slot).rx)[0]
                &&& queued_frames(final(slot).rx) == queued_frames(old(slot).rx).drop_first()
            },
            None => {
                &&& queued_frames(old(slot).rx).len() == 0
                &&& queued_frames(final(slot).rx) == queued_frames(old(slot).rx)
            },
        },
        frame_capacity(final(slot).rx) == frame_capacity(old(slot).rx),
        feeds_frames(final(slot).tx, final(slot).rx),
{
    slot.rx.try_recv().ok()
}

/// `Receiver::is_empty` on a channel whose two ends are both at hand:
/// whether no message waits in the channel.
#[verifier::external_body]
fn is_empty_frames(slot: &Mailbox) -> (empty: bool)
    requires
        feeds_frames(slot.tx, slot.rx),
    ensures
        empty == (queued_frames(slot.rx).len() == 0),
{
    slot.rx.is_empty()
}

/// Why a hand-off could not take place. Either one means that the stages of
/// a frame did not run in their order.
#[derive(Clone, Copy, Debug, PartialEq, Eq, Structural)]
pub enum ProtocolViolation {
    /// A frame was published while an earlier one was still waiting.
    Occupied,
    /// A frame was asked for and none was waiting.
    Empty,
}

impl View for Mailbox {
    type V = Option<u64>;

    /// The frame waiting in the slot, if any.
    closed spec fn view(&self) -> Option<u64> {
        if queued_frames(self.rx).len() == 0 {
            None
        } else {
            Some(queued_frames(self.rx)[0])
        }
    }
}

impl Mailbox {
    #[verifier::type_invariant]
    spec fn single_slot(self) -> bool {
        &&& feeds_frames(self.tx, self.rx)
        &&& frame_capacity(self.rx) == 1
        &&& queued_frames(self.rx).len() <= 1
    }

    /// An empty mailbox.
    pub fn new() -> (slot: Mailbox)
        ensures
            slot@ is None,
    {
        let (tx, rx) = bounded_frames(1);
        Mailbox { tx, rx }
    }

    /// Whether no frame waits in the slot.
    pub fn is_empty(&self) -> (empty: bool)
        ensures
            empty == (self@ is None),
    {
        proof {
            use_type_invariant(self);
        }
        is_empty_frames(self)
    }

    /// Puts `frame` into the slot. Fails, leaving the slot as it was, if a
    /// frame is still waiting there. This never blocks.
    pub fn publish(&mut self, frame: u64) -> (done: Result<(), ProtocolViolation>)
        ensures
            match done {
                Ok(_) => old(self)@ is None && final(self)@ == Some(frame),
                Err(violation) => violation == ProtocolViolation::Occupied && old(self)@ is Some
                    && final(self)@ == old(self)@,
            },
    {
        proof {
            use_type_invariant(&*self);
        }
        if try_send_frame(self, frame) {
            Ok(())
        } else {
            Err(ProtocolViolation::Occupied)
        }
    }

    /// Takes the waiting frame out of the slot. Fails if none waits. This
    /// never blocks.
    pub fn take(&mut self) -> (got: Result<u64, ProtocolViolation>)
        ensures
            final(self)@ is None,
            match got {
                Ok(frame) => old(self)@ == Some(frame),
                Err(violation) => violation == ProtocolViolation::Empty && old(self)@ is None,
            },
    {
        proof {
            use_type_invariant(&*self);
        }
        match try_recv_frame(self) {
            Some(frame) => Ok(frame),
            None => Err(ProtocolViolation::Empty),
        }
    }

    /// Takes the waiting frame out of the slot if there is one.
    pub fn try_take(&mut self) -> (got: Option<u64>)
        ensures
            final(self)@ is None,
            got == old(self)@,
    {
        proof {
            use_type_invariant(&*self);
        }
        try_recv_frame(self)
    }
}

} // verus!
