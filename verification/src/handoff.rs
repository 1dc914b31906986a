//! The hand-off protocol between the frame builder, the render driver and
//! the application, as a state machine over the two single-slot mailboxes.
//!
//! The host runs the stages of a frame in a fixed order: frame start, then
//! update, then render. The frame builder publishes in the first, the
//! application pulls in the second and the render driver takes in the
//! third, so each slot is filled once and emptied once per frame. Nothing
//! here enforces that order; a step taken out of order is reported as a
//! `ProtocolViolation` and changes nothing.

use vstd::prelude::*;
use crate::channel::{Mailbox, ProtocolViolation};

verus! {

/// What the two mailboxes hold, and the number of the frame published last.
pub struct Slots {
    /// The frame waiting for the render driver.
    pub render: Option<u64>,
    /// The frame waiting for the application.
    pub app: Option<u64>,
    /// The number of the frame published last; 0 before the first.
    pub frame: u64,
}

/// What the host's update stage told the application's pull.
#[derive(Clone, Copy, Debug, PartialEq, Eq, Structural)]
pub enum Signal {
    /// The update stage has not fired since the last pull.
    Pending,
    /// The update stage has fired.
    Fired,
    /// The host will send no further update signal.
    Closed,
}

/// What a pull gives the application.
#[derive(Clone, Copy, Debug, PartialEq, Eq, Structural)]
pub enum Pull {
    /// Nothing yet: ask again after the next signal.
    Pending,
    /// The frame to issue user-interface calls for.
    Ready(u64),
    /// The sequence of frames has ended.
    Finished,
}

/// The number of the frame after `frame`. Numbers start over after the
/// largest.
pub open spec fn next_frame(frame: u64) -> u64 {
    if frame == u64::MAX {
        0
    } else {
        (frame + 1) as u64
    }
}

/// Publishing: with both slots empty the next frame goes into both;
/// otherwise nothing changes and the step fails.
pub open spec fn publish_step(s: Slots) -> (Slots, Result<u64, ProtocolViolation>) {
    if s.render is None && s.app is None {
        let frame = next_frame(s.frame);
        (Slots { render: Some(frame), app: Some(frame), frame }, Ok(frame))
    } else {
        (s, Err(ProtocolViolation::Occupied))
    }
}

/// Rendering: takes the frame out of the render slot, or fails on an empty
/// slot. The application's slot is left alone.
pub open spec fn render_step(s: Slots) -> (Slots, Result<u64, ProtocolViolation>) {
    match s.render {
        Some(frame) => (Slots { render: None, ..s }, Ok(frame)),
        None => (s, Err(ProtocolViolation::Empty)),
    }
}

/// Pulling: after an update signal the frame in the application's slot is
/// taken out, if there is one. The render slot is left alone.
pub open spec fn pull_step(s: Slots, signal: Signal) -> (Slots, Pull) {
    match signal {
        Signal::Pending => (s, Pull::Pending),
        Signal::Closed => (s, Pull::Finished),
        Signal::Fired => match s.app {
            Some(frame) => (Slots { app: None, ..s }, Pull::Ready(frame)),
            None => (s, Pull::Pending),
        },
    }
}

/// Whether both slots are empty, as they are between two frames.
pub open spec fn idle(s: Slots) -> bool {
    s.render is None && s.app is None
}

/// Whether a slot that holds a frame holds the one published last. This is
/// true at the start and every step keeps it so.
pub open spec fn current(s: Slots) -> bool {
    &&& s.render matches Some(frame) ==> frame == s.frame
    &&& s.app matches Some(frame) ==> frame == s.frame
}

/// The two mailboxes through which each frame reaches the render driver and
/// the application, with the number of the frame published last.
pub struct HandOff {
    renderer: Mailbox,
    prepared: Mailbox,
    frame: u64,
}

impl View for HandOff {
    type V = Slots;

    closed spec fn view(&self) -> Slots {
        Slots { render: self.renderer@, app: self.prepared@, frame: self.frame }
    }
}

impl HandOff {
    /// Both mailboxes empty, no frame published yet.
    pub fn new() -> (handoff: HandOff)
        ensures
            handoff@ == (Slots { render: None, app: None, frame: 0 }),
            idle(handoff@),
            current(handoff@),
    {
        HandOff { renderer: Mailbox::new(), prepared: Mailbox::new(), frame: 0 }
    }

    /// Publishes the next frame number to the render driver and to the
    /// application. If a frame is still waiting in either mailbox, nothing
    /// is published and nothing is overwritten.
    pub fn publish(&mut self) -> (published: Result<u64, ProtocolViolation>)
        ensures
            (final(self)@, published) == publish_step(old(self)@),
    {
        if self.renderer.is_empty() && self.prepared.is_empty() {
            let frame = if self.frame == u64::MAX {
                0
            } else {
                self.frame + 1
            };
            let _ = self.renderer.publish(frame);
            let _ = self.prepared.publish(frame);
            self.frame = frame;
            Ok(frame)
        } else {
            Err(ProtocolViolation::Occupied)
        }
    }

    /// Takes the frame that waits for the render driver. An empty mailbox
    /// means that no frame was published for this render stage.
    pub fn render(&mut self) -> (taken: Result<u64, ProtocolViolation>)
        ensures
            (final(self)@, taken) == render_step(old(self)@),
    {
        self.renderer.take()
    }

    /// The application's pull. After an update signal it gives the frame
    /// that waits for the application, if one does; once the host's update
    /// signals have ended, so has the sequence of frames.
    pub fn poll_next(&mut self, update: Signal) -> (pull: Pull)
        ensures
            (final(self)@, pull) == pull_step(old(self)@, update),
    {
        match update {
            Signal::Pending => Pull::Pending,
            Signal::Closed => Pull::Finished,
            Signal::Fired => match self.prepared.try_take() {
                Some(frame) => Pull::Ready(frame),
                None => Pull::Pending,
            },
        }
    }
}

/// With the stages in their order, a frame that starts with both slots
/// empty publishes one frame number, hands that number to the application
/// and to the render driver, and ends with both slots empty again.
pub proof fn lemma_frame_in_stage_order(s: Slots)
    requires
        idle(s),
    ensures
        ({
            let frame = next_frame(s.frame);
            let (published, result) = publish_step(s);
            let (updated, pull) = pull_step(published, Signal::Fired);
            let (rendered, taken) = render_step(updated);
            &&& result == Ok::<u64, ProtocolViolation>(frame)
            &&& pull == Pull::Ready(frame)
            &&& taken == Ok::<u64, ProtocolViolation>(frame)
            &&& idle(rendered)
            &&& rendered.frame == frame
        }),
{
}

/// A frame is consumed once on each path: after the render driver has taken
/// it, a second render in the same frame fails, and after the application
/// has pulled it, a second pull finds nothing.
pub proof fn lemma_frame_consumed_once(s: Slots)
    ensures
        render_step(render_step(s).0).1 == Err::<u64, ProtocolViolation>(ProtocolViolation::Empty),
        pull_step(pull_step(s, Signal::Fired).0, Signal::Fired).1 == Pull::Pending,
{
}

/// A frame that is still waiting on either path is never overwritten:
/// publishing fails and leaves both slots as they were.
pub proof fn lemma_publish_never_overwrites(s: Slots)
    requires
        !idle(s),
    ensures
        publish_step(s) == (s, Err::<u64, ProtocolViolation>(ProtocolViolation::Occupied)),
{
}

/// A render consumes the frame of its own stage only: what it takes is what
/// the last publish put there, and what a later publish puts there is a
/// different number.
pub proof fn lemma_render_takes_latest(s: Slots)
    requires
        idle(s),
    ensures
        ({
            let (published, _) = publish_step(s);
            let (rendered, taken) = render_step(published);
            &&& taken == Ok::<u64, ProtocolViolation>(published.frame)
            &&& rendered.app == published.app
            &&& next_frame(published.frame) != published.frame
        }),
{
}

/// No step lets a stale frame into a slot: from a state in which the slots
/// hold nothing but the frame published last, publishing, rendering and
/// pulling each lead to such a state again, whether they succeed or fail.
pub proof fn lemma_steps_keep_slots_current(s: Slots, signal: Signal)
    requires
        current(s),
    ensures
        current(publish_step(s).0),
        current(render_step(s).0),
        current(pull_step(s, signal).0),
{
}

/// One whole frame with its stages in order: publish, then the
/// application's pull after the update signal, then the render.
pub open spec fn frame_in_order(s: Slots) -> Slots {
    render_step(pull_step(publish_step(s).0, Signal::Fired).0).0
}

/// The state after `n` whole frames with their stages in order.
pub open spec fn after_frames(s: Slots, n: nat) -> Slots
    decreases n,
{
    if n == 0 {
        s
    } else {
        frame_in_order(after_frames(s, (n - 1) as nat))
    }
}

/// The frame number `n` frames after `frame`.
pub open spec fn frame_after(frame: u64, n: nat) -> u64
    decreases n,
{
    if n == 0 {
        frame
    } else {
        next_frame(frame_after(frame, (n - 1) as nat))
    }
}

/// However many frames run with their stages in order, each of them
/// publishes exactly one frame number, the application and the render
/// driver each take exactly that number, and both slots are empty again
/// when the frame is over.
pub proof fn lemma_frames_in_stage_order(s: Slots, n: nat)
    requires
        idle(s),
    ensures
        idle(after_frames(s, n)),
        after_frames(s, n).frame == frame_after(s.frame, n),
        n > 0 ==> ({
            let frame = frame_after(s.frame, n);
            let (published, result) = publish_step(after_frames(s, (n - 1) as nat));
            let (updated, pull) = pull_step(published, Signal::Fired);
            let (rendered, taken) = render_step(updated);
            &&& result == Ok::<u64, ProtocolViolation>(frame)
            &&& pull == Pull::Ready(frame)
            &&& taken == Ok::<u64, ProtocolViolation>(frame)
            &&& rendered == after_frames(s, n)
        }),
    decreases n,
{
    if n > 0 {
        lemma_frames_in_stage_order(s, (n - 1) as nat);
        lemma_frame_in_stage_order(after_frames(s, (n - 1) as nat));
    }
}

} // verus!
