use elikar_egui::build;
use elikar_egui::channel::ProtocolViolation;
use elikar_egui::events::{
    keydown, keyup, mouse_down, mouse_motion, mouse_up, mouse_wheel, text_editing, text_input,
};
use elikar_egui::handoff::{HandOff, Pull, Signal};
use elikar_egui::input::{Event, Key, ModState, Modifiers, MouseButton, PointerButton};
use elikar_egui::render::SurfaceSize;
use elikar_egui::scancode;
use elikar_egui::snapshot::{drain_channel, Inputs};

fn no_modifiers() -> Modifiers {
    Modifiers { alt: false, ctrl: false, shift: false, mac_cmd: false, command: false }
}

#[test]
fn build_starts_empty() {
    let mut prepared = build(1280, 800);
    assert_eq!(prepared.screen, SurfaceSize { width: 1280, height: 800 });
    let snapshot = prepared.begin_frame(0);
    assert_eq!(snapshot.events, vec![]);
    assert_eq!(snapshot.screen_width, 1280);
    assert_eq!(snapshot.screen_height, 800);
    assert_eq!(snapshot.elapsed_micros, 0);
    assert_eq!(prepared.render(), Err(ProtocolViolation::Empty));
    assert_eq!(prepared.poll_next(Signal::Fired), Pull::Pending);
}

#[test]
fn snapshot_holds_key_a_pressed_then_released() {
    let mut prepared = build(640, 480);
    assert_eq!(prepared.begin_frame(1).events, vec![]);
    keydown(&mut prepared.inputs.key_down, scancode::A, ModState::none());
    keyup(&mut prepared.inputs.key_up, scancode::A, ModState::none(), None);
    let snapshot = prepared.begin_frame(16_667);
    assert_eq!(
        snapshot.events,
        vec![
            Event::Key { key: Key::A, pressed: true, modifiers: no_modifiers() },
            Event::Key { key: Key::A, pressed: false, modifiers: no_modifiers() },
        ]
    );
    assert_eq!(snapshot.elapsed_micros, 16_667);
    assert_eq!(prepared.begin_frame(33_334).events, vec![]);
}

#[test]
fn snapshot_follows_channel_order_not_arrival_order() {
    let mut prepared = build(640, 480);
    text_editing(&mut prepared.inputs.text_editing, "e1".to_string());
    text_input(&mut prepared.inputs.text_input, "t1".to_string());
    mouse_wheel(&mut prepared.inputs.mouse_wheel, 0, 1, ModState::none());
    mouse_motion(&mut prepared.inputs.mouse_motion, 5, 6);
    mouse_up(&mut prepared.inputs.mouse_up, MouseButton::Left, 3, 4, ModState::none());
    mouse_down(&mut prepared.inputs.mouse_down, MouseButton::Left, 1, 2, ModState::none());
    keyup(&mut prepared.inputs.key_up, scancode::B, ModState::none(), None);
    keydown(&mut prepared.inputs.key_down, scancode::B, ModState::none());
    text_editing(&mut prepared.inputs.text_editing, "e2".to_string());
    mouse_motion(&mut prepared.inputs.mouse_motion, 7, 8);
    keydown(&mut prepared.inputs.key_down, scancode::TAB, ModState::none());
    let snapshot = prepared.begin_frame(5);
    assert_eq!(
        snapshot.events,
        vec![
            Event::Key { key: Key::B, pressed: true, modifiers: no_modifiers() },
            Event::Key { key: Key::Tab, pressed: true, modifiers: no_modifiers() },
            Event::Key { key: Key::B, pressed: false, modifiers: no_modifiers() },
            Event::PointerButton {
                x: 1,
                y: 2,
                button: PointerButton::Primary,
                pressed: true,
                modifiers: no_modifiers(),
            },
            Event::PointerButton {
                x: 3,
                y: 4,
                button: PointerButton::Primary,
                pressed: false,
                modifiers: no_modifiers(),
            },
            Event::PointerMoved { x: 5, y: 6 },
            Event::PointerMoved { x: 7, y: 8 },
            Event::Scroll { dx: 0, dy: 8 },
            Event::Text("t1".to_string()),
            Event::CompositionUpdate("e1".to_string()),
            Event::CompositionUpdate("e2".to_string()),
        ]
    );
}

#[test]
fn each_event_reaches_exactly_one_snapshot() {
    let mut prepared = build(640, 480);
    let mut seen = 0;
    for frame in 0..10 {
        for i in 0..frame {
            mouse_motion(&mut prepared.inputs.mouse_motion, frame, i);
            keydown(&mut prepared.inputs.key_down, scancode::A, ModState::none());
        }
        let snapshot = prepared.begin_frame(frame as u64);
        assert_eq!(snapshot.events.len(), 2 * frame as usize);
        for i in 0..frame {
            assert_eq!(
                snapshot.events[(frame + i) as usize],
                Event::PointerMoved { x: frame, y: i }
            );
        }
        seen += snapshot.events.len();
    }
    assert_eq!(seen, 90);
    assert_eq!(prepared.begin_frame(11).events, vec![]);
}

#[test]
fn drain_channel_appends_to_what_is_there() {
    let mut inputs = Inputs::new();
    text_input(&mut inputs.text_input, "a".to_string());
    text_input(&mut inputs.text_input, "b".to_string());
    let mut events = vec![Event::Copy];
    drain_channel(&mut inputs.text_input, &mut events);
    assert_eq!(
        events,
        vec![Event::Copy, Event::Text("a".to_string()), Event::Text("b".to_string())]
    );
    drain_channel(&mut inputs.text_input, &mut events);
    assert_eq!(events.len(), 3);
    assert_eq!(inputs.drain(), vec![]);
}

#[test]
fn stages_in_order_hand_each_frame_over_once() {
    let mut prepared = build(640, 480);
    for frame in 1..=5u64 {
        assert_eq!(prepared.publish(), Ok(frame));
        assert_eq!(prepared.poll_next(Signal::Fired), Pull::Ready(frame));
        assert_eq!(prepared.render(), Ok(frame));
    }
}

#[test]
fn render_may_come_before_the_pull() {
    let mut handoff = HandOff::new();
    assert_eq!(handoff.publish(), Ok(1));
    assert_eq!(handoff.render(), Ok(1));
    assert_eq!(handoff.poll_next(Signal::Fired), Pull::Ready(1));
    assert_eq!(handoff.publish(), Ok(2));
}

#[test]
fn no_frame_is_rendered_twice() {
    let mut prepared = build(640, 480);
    assert_eq!(prepared.publish(), Ok(1));
    assert_eq!(prepared.render(), Ok(1));
    assert_eq!(prepared.render(), Err(ProtocolViolation::Empty));
    assert_eq!(prepared.poll_next(Signal::Fired), Pull::Ready(1));
    assert_eq!(prepared.poll_next(Signal::Fired), Pull::Pending);
}

#[test]
fn render_before_frame_start_is_a_violation() {
    let mut prepared = build(640, 480);
    assert_eq!(prepared.render(), Err(ProtocolViolation::Empty));
    assert_eq!(prepared.publish(), Ok(1));
    assert_eq!(prepared.render(), Ok(1));
}

#[test]
fn publishing_over_a_waiting_frame_is_a_violation() {
    let mut prepared = build(640, 480);
    assert_eq!(prepared.publish(), Ok(1));
    assert_eq!(prepared.publish(), Err(ProtocolViolation::Occupied));
    assert_eq!(prepared.render(), Ok(1));
    assert_eq!(prepared.publish(), Err(ProtocolViolation::Occupied));
    assert_eq!(prepared.poll_next(Signal::Fired), Pull::Ready(1));
    assert_eq!(prepared.publish(), Ok(2));
    assert_eq!(prepared.poll_next(Signal::Fired), Pull::Ready(2));
    assert_eq!(prepared.publish(), Err(ProtocolViolation::Occupied));
    assert_eq!(prepared.render(), Ok(2));
    assert_eq!(prepared.publish(), Ok(3));
}

#[test]
fn pull_waits_for_the_update_signal() {
    let mut prepared = build(640, 480);
    assert_eq!(prepared.publish(), Ok(1));
    assert_eq!(prepared.poll_next(Signal::Pending), Pull::Pending);
    assert_eq!(prepared.poll_next(Signal::Pending), Pull::Pending);
    assert_eq!(prepared.poll_next(Signal::Fired), Pull::Ready(1));
}

#[test]
fn pull_ends_with_the_update_signals() {
    let mut prepared = build(640, 480);
    assert_eq!(prepared.poll_next(Signal::Closed), Pull::Finished);
    assert_eq!(prepared.publish(), Ok(1));
    assert_eq!(prepared.poll_next(Signal::Closed), Pull::Finished);
    assert_eq!(prepared.poll_next(Signal::Fired), Pull::Ready(1));
}

#[test]
fn begin_frame_leaves_the_mailboxes_alone() {
    let mut prepared = build(640, 480);
    assert_eq!(prepared.publish(), Ok(1));
    keydown(&mut prepared.inputs.key_down, scancode::A, ModState::none());
    assert_eq!(prepared.begin_frame(3).events.len(), 1);
    assert_eq!(prepared.render(), Ok(1));
    assert_eq!(prepared.poll_next(Signal::Fired), Pull::Ready(1));
}
