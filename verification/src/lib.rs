//! Input translation and frame hand-off between a host event loop and an
//! immediate-mode user interface.
//!
//! Input translators turn host events into user-interface events and queue
//! them, one queue per input channel. Once per frame the frame builder
//! drains the queues into one snapshot and publishes the frame to two
//! single-slot mailboxes: one for the render driver, one for the
//! application.

use vstd::prelude::*;
use crate::channel::ProtocolViolation;
use crate::handoff::{publish_step, pull_step, render_step, HandOff, Pull, Signal, Slots};
use crate::input::EventView;
use crate::render::SurfaceSize;
use crate::snapshot::{event_views, InputSnapshot, Inputs};

pub mod channel;
pub mod events;
pub mod handoff;
pub mod input;
pub mod keys;
pub mod render;
pub mod scancode;
pub mod snapshot;

verus! {

/// The adapter between the host and the user interface: the queues the
/// input translators fill, the hand-off through which each frame reaches
/// the render driver and the application, and the screen size the frames
/// are built for.
pub struct Prepared {
    /// The input channels. A translator appends to its own.
    pub inputs: Inputs,
    /// The mailboxes between frame builder, render driver and application.
    pub handoff: HandOff,
    /// The screen size, as read when the adapter was set up. A later resize
    /// of the surface does not change it.
    pub screen: SurfaceSize,
}

/// Sets the adapter up for a screen of `screen_width` by `screen_height`
/// pixels: all queues and both mailboxes empty, no frame published yet.
pub fn build(screen_width: u32, screen_height: u32) -> (prepared: Prepared)
    ensures
        prepared.inputs.pending() == Seq::<EventView>::empty(),
        prepared.inputs.is_drained(),
        prepared.handoff@ == (Slots { render: None, app: None, frame: 0 }),
        prepared.screen == (SurfaceSize { width: screen_width, height: screen_height }),
{
    Prepared {
        inputs: Inputs::new(),
        handoff: HandOff::new(),
        screen: SurfaceSize { width: screen_width, height: screen_height },
    }
}

impl Prepared {
    /// The first step of a frame: drains the input queues into the frame's
    /// snapshot. The snapshot holds every event that was waiting, each once,
    /// queue after queue in drain order; the queues are empty afterwards.
    pub fn begin_frame(&mut self, elapsed_micros: u64) -> (snapshot: InputSnapshot)
        ensures
            event_views(snapshot.events@) == old(self).inputs.pending(),
            snapshot.screen_width == old(self).screen.width,
            snapshot.screen_height == old(self).screen.height,
            snapshot.elapsed_micros == elapsed_micros,
            final(self).inputs.is_drained(),
            final(self).handoff == old(self).handoff,
            final(self).screen == old(self).screen,
    {
        let events = self.inputs.drain();
        InputSnapshot {
            events,
            screen_width: self.screen.width,
            screen_height: self.screen.height,
            elapsed_micros,
        }
    }

    /// The second step of a frame: publishes the next frame number to the
    /// render driver and to the application. If a frame is still waiting in
    /// either mailbox, nothing is published and nothing is overwritten.
    pub fn publish(&mut self) -> (published: Result<u64, ProtocolViolation>)
        ensures
            (final(self).handoff@, published) == publish_step(old(self).handoff@),
            final(self).inputs == old(self).inputs,
            final(self).screen == old(self).screen,
    {
        self.handoff.publish()
    }

    /// The render driver's first step: takes the frame that waits for it. An
    /// empty mailbox means that no frame was published for this render
    /// stage.
    pub fn render(&mut self) -> (taken: Result<u64, ProtocolViolation>)
        ensures
            (final(self).handoff@, taken) == render_step(old(self).handoff@),
            final(self).inputs == old(self).inputs,
            final(self).screen == old(self).screen,
    {
        self.handoff.render()
    }

    /// The application's pull. After an update signal it gives the frame
    /// that waits for the application, if one does; once the host's update
    /// signals have ended, so has the sequence of frames.
    pub fn poll_next(&mut self, update: Signal) -> (pull: Pull)
        ensures
            (final(self).handoff@, pull) == pull_step(old(self).handoff@, update),
            final(self).inputs == old(self).inputs,
            final(self).screen == old(self).screen,
    {
        self.handoff.poll_next(update)
    }
}

} // verus!
