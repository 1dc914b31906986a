//! The eight input channels and the per-frame snapshot drained from them.

use vstd::prelude::*;
use crate::channel::EventChannel;
use crate::input::{Event, EventView};

verus! {

/// The mathematical values of a sequence of events, in the same order.
pub open spec fn event_views(events: Seq<Event>) -> Seq<EventView> {
    events.map_values(|event: Event| event@)
}

/// The queues of the eight input channels. The order of the fields is the
/// order in which a frame drains them.
pub struct Inputs {
    pub key_down: EventChannel,
    pub key_up: EventChannel,
    pub mouse_down: EventChannel,
    pub mouse_up: EventChannel,
    pub mouse_motion: EventChannel,
    pub mouse_wheel: EventChannel,
    pub text_input: EventChannel,
    pub text_editing: EventChannel,
}

/// What one frame hands to the user interface: the events drained for it,
/// the screen rectangle from the origin to `screen_width` by
/// `screen_height`, and the time since the frame builder started.
#[derive(Debug)]
pub struct InputSnapshot {
    pub events: Vec<Event>,
    pub screen_width: u32,
    pub screen_height: u32,
    pub elapsed_micros: u64,
}

/// Moves everything that waits in `channel` to the end of `events`, oldest
/// first, and stops when the channel is empty.
pub fn drain_channel(channel: &mut EventChannel, events: &mut Vec<Event>)
    ensures
        event_views(final(events)@) == event_views(old(events)@) + old(channel)@,
        final(channel)@ == Seq::<EventView>::empty(),
{
    loop
        invariant
            event_views(events@) + channel@ == event_views(old(events)@) + old(channel)@,
        ensures
            channel@.len() == 0,
        decreases channel@.len(),
    {
        match channel.try_recv() {
            Some(event) => {
                events.push(event);
            },
            None => {
                break ;
            },
        }
    }
}

impl Inputs {
    /// Eight empty queues.
    pub fn new() -> (inputs: Inputs)
        ensures
            inputs.pending() == Seq::<EventView>::empty(),
            inputs.is_drained(),
    {
        Inputs {
            key_down: EventChannel::new(),
            key_up: EventChannel::new(),
            mouse_down: EventChannel::new(),
            mouse_up: EventChannel::new(),
            mouse_motion: EventChannel::new(),
            mouse_wheel: EventChannel::new(),
            text_input: EventChannel::new(),
            text_editing: EventChannel::new(),
        }
    }

    /// Everything that waits in the eight queues: each queue's events in the
    /// order they arrived, the queues one after the other in drain order.
    pub open spec fn pending(&self) -> Seq<EventView> {
        self.key_down@ + self.key_up@ + self.mouse_down@ + self.mouse_up@ + self.mouse_motion@
            + self.mouse_wheel@ + self.text_input@ + self.text_editing@
    }

    /// Whether no queue holds an event.
    pub open spec fn is_drained(&self) -> bool {
        &&& self.key_down@.len() == 0
        &&& self.key_up@.len() == 0
        &&& self.mouse_down@.len() == 0
        &&& self.mouse_up@.len() == 0
        &&& self.mouse_motion@.len() == 0
        &&& self.mouse_wheel@.len() == 0
        &&& self.text_input@.len() == 0
        &&& self.text_editing@.len() == 0
    }

    /// Takes every waiting event out of the queues. The result holds each
    /// event once, queue after queue in drain order, and leaves all queues
    /// empty.
    pub fn drain(&mut self) -> (events: Vec<Event>)
        ensures
            event_views(events@) == old(self).pending(),
            final(self).is_drained(),
    {
        let mut events: Vec<Event> = Vec::new();
        drain_channel(&mut self.key_down, &mut events);
        drain_channel(&mut self.key_up, &mut events);
        drain_channel(&mut self.mouse_down, &mut events);
        drain_channel(&mut self.mouse_up, &mut events);
        drain_channel(&mut self.mouse_motion, &mut events);
        drain_channel(&mut self.mouse_wheel, &mut events);
        drain_channel(&mut self.text_input, &mut events);
        drain_channel(&mut self.text_editing, &mut events);
        events
    }
}

/// Draining neither loses nor repeats an event: what waits in the queues
/// has as many events as the queues together, and each queue's events stand
/// in it in their own order, behind all events of the queues drained before.
pub proof fn lemma_pending_keeps_every_event(inputs: Inputs)
    ensures
        inputs.pending().len() == inputs.key_down@.len() + inputs.key_up@.len()
            + inputs.mouse_down@.len() + inputs.mouse_up@.len() + inputs.mouse_motion@.len()
            + inputs.mouse_wheel@.len() + inputs.text_input@.len() + inputs.text_editing@.len(),
        forall|i: int|
            0 <= i < inputs.key_down@.len() ==> inputs.pending()[i] == inputs.key_down@[i],
        forall|i: int|
            0 <= i < inputs.key_up@.len() ==> inputs.pending()[inputs.key_down@.len() + i]
                == inputs.key_up@[i],
        forall|i: int|
            0 <= i < inputs.mouse_down@.len() ==> inputs.pending()[inputs.key_down@.len()
                + inputs.key_up@.len() + i] == inputs.mouse_down@[i],
        forall|i: int|
            0 <= i < inputs.mouse_up@.len() ==> inputs.pending()[inputs.key_down@.len()
                + inputs.key_up@.len() + inputs.mouse_down@.len() + i] == inputs.mouse_up@[i],
        forall|i: int|
            0 <= i < inputs.mouse_motion@.len() ==> inputs.pending()[inputs.key_down@.len()
                + inputs.key_up@.len() + inputs.mouse_down@.len() + inputs.mouse_up@.len() + i]
                == inputs.mouse_motion@[i],
        forall|i: int|
            0 <= i < inputs.mouse_wheel@.len() ==> inputs.pending()[inputs.key_down@.len()
                + inputs.key_up@.len() + inputs.mouse_down@.len() + inputs.mouse_up@.len()
                + inputs.mouse_motion@.len() + i] == inputs.mouse_wheel@[i],
        forall|i: int|
            0 <= i < inputs.text_input@.len() ==> inputs.pending()[inputs.key_down@.len()
                + inputs.key_up@.len() + inputs.mouse_down@.len() + inputs.mouse_up@.len()
                + inputs.mouse_motion@.len() + inputs.mouse_wheel@.len() + i]
                == inputs.text_input@[i],
        forall|i: int|
            0 <= i < inputs.text_editing@.len() ==> inputs.pending()[inputs.key_down@.len()
                + inputs.key_up@.len() + inputs.mouse_down@.len() + inputs.mouse_up@.len()
                + inputs.mouse_motion@.len() + inputs.mouse_wheel@.len() + inputs.text_input@.len()
                + i] == inputs.text_editing@[i],
{
}

/// What a frame's snapshot holds is what was sent since the frame before:
/// if the queues were drained and each has since received its own sequence
/// of events, then what waits is those sequences one after the other in
/// drain order.
pub proof fn lemma_snapshot_is_what_was_sent(
    before: Inputs,
    after: Inputs,
    key_down: Seq<EventView>,
    key_up: Seq<EventView>,
    mouse_down: Seq<EventView>,
    mouse_up: Seq<EventView>,
    mouse_motion: Seq<EventView>,
    mouse_wheel: Seq<EventView>,
    text_input: Seq<EventView>,
    text_editing: Seq<EventView>,
)
    requires
        before.is_drained(),
        after.key_down@ == before.key_down@ + key_down,
        after.key_up@ == before.key_up@ + key_up,
        after.mouse_down@ == before.mouse_down@ + mouse_down,
        after.mouse_up@ == before.mouse_up@ + mouse_up,
        after.mouse_motion@ == before.mouse_motion@ + mouse_motion,
        after.mouse_wheel@ == before.mouse_wheel@ + mouse_wheel,
        after.text_input@ == before.text_input@ + text_input,
        after.text_editing@ == before.text_editing@ + text_editing,
    ensures
        before.pending() == Seq::<EventView>::empty(),
        after.pending() == key_down + key_up + mouse_down + mouse_up + mouse_motion + mouse_wheel
            + text_input + text_editing,
{
}

} // verus!
