//! The input translators. Each takes one host event, turns it into the
//! events the user interface consumes and appends them to the queue of its
//! input channel. A host event without a counterpart is dropped.

use vstd::prelude::*;
use crate::channel::EventChannel;
use crate::input::{Event, EventView, Key, ModState, MouseButton, PointerButton};
use crate::keys::{key_map, key_of};
use crate::scancode;

verus! {

/// How far one wheel step scrolls, on either axis.
pub const SCROLL_SCALE: i64 = 8;

/// What a pressed key translates to: one key event, or nothing for a
/// scancode without a key.
pub open spec fn keydown_events(code: u32, mods: ModState) -> Seq<EventView> {
    match key_of(code) {
        Some(key) => seq![EventView::Key { key, pressed: true, modifiers: mods.as_modifiers() }],
        None => Seq::empty(),
    }
}

/// What follows the key event when a key is released with control held: C
/// copies, X cuts, and V inserts the clipboard text if there is one.
pub open spec fn shortcut_events(key: Key, mods: ModState, clipboard: Option<Seq<char>>) -> Seq<
    EventView,
> {
    if key == Key::C && mods.ctrl_held() {
        seq![EventView::Copy]
    } else if key == Key::X && mods.ctrl_held() {
        seq![EventView::Cut]
    } else if key == Key::V && mods.ctrl_held() {
        match clipboard {
            Some(text) => seq![EventView::Text(text)],
            None => Seq::empty(),
        }
    } else {
        Seq::empty()
    }
}

/// What a released key translates to: the key event, then what its shortcut
/// adds; nothing at all for a scancode without a key.
pub open spec fn keyup_events(code: u32, mods: ModState, clipboard: Option<Seq<char>>) -> Seq<
    EventView,
> {
    match key_of(code) {
        Some(key) => seq![EventView::Key { key, pressed: false, modifiers: mods.as_modifiers() }]
            + shortcut_events(key, mods, clipboard),
        None => Seq::empty(),
    }
}

/// Whether releasing this key pastes, so that the clipboard has to be read.
pub open spec fn pastes(code: u32, mods: ModState) -> bool {
    key_of(code) == Some(Key::V) && mods.ctrl_held()
}

/// The pointer button a mouse button stands for, if any.
pub open spec fn pointer_button_of(button: MouseButton) -> Option<PointerButton> {
    match button {
        MouseButton::Left => Some(PointerButton::Primary),
        MouseButton::Middle => Some(PointerButton::Middle),
        MouseButton::Right => Some(PointerButton::Secondary),
        _ => None,
    }
}

/// What a mouse button going down or up translates to: one pointer event,
/// or nothing for a button without a counterpart.
pub open spec fn button_events(
    button: MouseButton,
    x: i32,
    y: i32,
    pressed: bool,
    mods: ModState,
) -> Seq<EventView> {
    match pointer_button_of(button) {
        Some(button) => seq![
            EventView::PointerButton {
                x: x as int,
                y: y as int,
                button,
                pressed,
                modifiers: mods.as_modifiers(),
            },
        ],
        None => Seq::empty(),
    }
}

/// What one wheel tick translates to. While control is held it is a zoom
/// by the tick's own vertical steps; otherwise it is a scroll by the
/// distance the steps stand for, `SCROLL_SCALE` pixels a step on either axis.
pub open spec fn wheel_event_of(steps_x: int, steps_y: int, ctrl: bool) -> EventView {
    if ctrl {
        EventView::Zoom { dy: steps_y }
    } else {
        EventView::Scroll { dx: steps_x * SCROLL_SCALE, dy: steps_y * SCROLL_SCALE }
    }
}

/// Scales wheel steps to the distance they scroll.
pub fn scroll_distance(steps: i32) -> (distance: i64)
    ensures
        distance == steps * SCROLL_SCALE,
{
    let steps: i64 = steps as i64;
    steps * SCROLL_SCALE
}

/// Turns one wheel tick into its event: a zoom while control is held, a
/// scroll otherwise, never both.
pub fn wheel_event(steps_x: i32, steps_y: i32, ctrl: bool) -> (event: Event)
    ensures
        event@ == wheel_event_of(steps_x as int, steps_y as int, ctrl),
{
    if ctrl {
        Event::Zoom { dy: steps_y as i64 }
    } else {
        Event::Scroll { dx: scroll_distance(steps_x), dy: scroll_distance(steps_y) }
    }
}

/// Whether the clipboard has to be read before `keyup` is called for this
/// key.
pub fn needs_clipboard(code: u32, mods: ModState) -> (needed: bool)
    ensures
        needed == pastes(code, mods),
{
    match key_map(code) {
        Some(Key::V) => mods.ctrl(),
        _ => false,
    }
}

/// Translates a key going down.
pub fn keydown(channel: &mut EventChannel, code: u32, mods: ModState)
    ensures
        final(channel)@ == old(channel)@ + keydown_events(code, mods),
{
    if let Some(key) = key_map(code) {
        channel.send(Event::Key { key, pressed: true, modifiers: mods.modifiers() });
    }
}

/// Translates a key going up. `clipboard` is the clipboard text read at this
/// moment, or `None` if it could not be read; it matters only where
/// `needs_clipboard` says so.
pub fn keyup(channel: &mut EventChannel, code: u32, mods: ModState, clipboard: Option<String>)
    ensures
        final(channel)@ == old(channel)@ + keyup_events(
            code,
            mods,
            match clipboard {
                Some(text) => Some(text@),
                None => None,
            },
        ),
{
    if let Some(key) = key_map(code) {
        channel.send(Event::Key { key, pressed: false, modifiers: mods.modifiers() });
        let ctrl = mods.ctrl();
        let follow = if key == Key::C && ctrl {
            Some(Event::Copy)
        } else if key == Key::X && ctrl {
            Some(Event::Cut)
        } else if key == Key::V && ctrl {
            match clipboard {
                Some(text) => Some(Event::Text(text)),
                None => None,
            }
        } else {
            None
        };
        if let Some(event) = follow {
            channel.send(event);
        }
    }
}

/// Translates a mouse button going down. `mods` is the keyboard's modifier
/// state read at this moment.
pub fn mouse_down(channel: &mut EventChannel, button: MouseButton, x: i32, y: i32, mods: ModState)
    ensures
        final(channel)@ == old(channel)@ + button_events(button, x, y, true, mods),
{
    let button = match button {
        MouseButton::Left => Some(PointerButton::Primary),
        MouseButton::Middle => Some(PointerButton::Middle),
        MouseButton::Right => Some(PointerButton::Secondary),
        _ => None,
    };
    if let Some(button) = button {
        channel.send(
            Event::PointerButton { x, y, button, pressed: true, modifiers: mods.modifiers() },
        );
    }
}

/// Translates a mouse button going up. `mods` is the keyboard's modifier
/// state read at this moment.
pub fn mouse_up(channel: &mut EventChannel, button: MouseButton, x: i32, y: i32, mods: ModState)
    ensures
        final(channel)@ == old(channel)@ + button_events(button, x, y, false, mods),
{
    let button = match button {
        MouseButton::Left => Some(PointerButton::Primary),
        MouseButton::Middle => Some(PointerButton::Middle),
        MouseButton::Right => Some(PointerButton::Secondary),
        _ => None,
    };
    if let Some(button) = button {
        channel.send(
            Event::PointerButton { x, y, button, pressed: false, modifiers: mods.modifiers() },
        );
    }
}

/// Translates a pointer movement: the position passes through as it is.
pub fn mouse_motion(channel: &mut EventChannel, x: i32, y: i32)
    ensures
        final(channel)@ == old(channel)@.push(EventView::PointerMoved { x: x as int, y: y as int }),
{
    channel.send(Event::PointerMoved { x, y });
}

/// Translates one wheel tick of `steps_x` by `steps_y` steps. `mods` is the
/// keyboard's modifier state read at this moment.
pub fn mouse_wheel(channel: &mut EventChannel, steps_x: i32, steps_y: i32, mods: ModState)
    ensures
        final(channel)@ == old(channel)@.push(
            if mods.ctrl_held() {
                EventView::Zoom { dy: steps_y as int }
            } else {
                EventView::Scroll { dx: steps_x * SCROLL_SCALE, dy: steps_y * SCROLL_SCALE }
            },
        ),
{
    channel.send(wheel_event(steps_x, steps_y, mods.ctrl()));
}

/// Translates committed text.
pub fn text_input(channel: &mut EventChannel, text: String)
    ensures
        final(channel)@ == old(channel)@.push(EventView::Text(text@)),
{
    channel.send(Event::Text(text));
}

/// Translates text that is still being composed.
pub fn text_editing(channel: &mut EventChannel, text: String)
    ensures
        final(channel)@ == old(channel)@.push(EventView::CompositionUpdate(text@)),
{
    channel.send(Event::CompositionUpdate(text));
}

/// Releasing C with control held gives the key release and then a copy,
/// whatever the clipboard holds.
pub proof fn lemma_ctrl_c_copies(mods: ModState, clipboard: Option<Seq<char>>)
    requires
        mods.ctrl_held(),
    ensures
        keyup_events(scancode::C, mods, clipboard) == seq![
            EventView::Key { key: Key::C, pressed: false, modifiers: mods.as_modifiers() },
            EventView::Copy,
        ],
{
}

/// Releasing X with control held gives the key release and then a cut.
pub proof fn lemma_ctrl_x_cuts(mods: ModState, clipboard: Option<Seq<char>>)
    requires
        mods.ctrl_held(),
    ensures
        keyup_events(scancode::X, mods, clipboard) == seq![
            EventView::Key { key: Key::X, pressed: false, modifiers: mods.as_modifiers() },
            EventView::Cut,
        ],
{
}

/// Releasing V with control held gives the key release and then a text
/// insertion that carries exactly the clipboard text read at that moment.
/// If the clipboard could not be read, the key release stands alone.
pub proof fn lemma_ctrl_v_pastes(mods: ModState, clipboard: Option<Seq<char>>)
    requires
        mods.ctrl_held(),
    ensures
        clipboard matches Some(text) ==> keyup_events(scancode::V, mods, clipboard) == seq![
            EventView::Key { key: Key::V, pressed: false, modifiers: mods.as_modifiers() },
            EventView::Text(text),
        ],
        clipboard is None ==> keyup_events(scancode::V, mods, clipboard) == seq![
            EventView::Key { key: Key::V, pressed: false, modifiers: mods.as_modifiers() },
        ],
{
}

/// Without control, or for any key but C, X and V, a release gives the key
/// event alone.
pub proof fn lemma_plain_release_has_no_shortcut(
    code: u32,
    mods: ModState,
    clipboard: Option<Seq<char>>,
)
    requires
        key_of(code) matches Some(key) && (!mods.ctrl_held() || (key != Key::C && key != Key::X
            && key != Key::V)),
    ensures
        keyup_events(code, mods, clipboard) == seq![
            EventView::Key { key: key_of(code)->0, pressed: false, modifiers: mods.as_modifiers() },
        ],
{
}

/// A press gives the key event alone, whatever the modifiers: shortcuts act
/// on release.
pub proof fn lemma_press_has_no_shortcut(code: u32, mods: ModState)
    requires
        key_of(code) is Some,
    ensures
        keydown_events(code, mods) == seq![
            EventView::Key { key: key_of(code)->0, pressed: true, modifiers: mods.as_modifiers() },
        ],
{
}

/// A wheel tick is a zoom or a scroll, never both: with control held it is a
/// zoom and no scroll, without control a scroll and no zoom.
pub proof fn lemma_wheel_zoom_or_scroll(steps_x: int, steps_y: int, ctrl: bool)
    ensures
        ctrl ==> wheel_event_of(steps_x, steps_y, ctrl) is Zoom && !(wheel_event_of(
            steps_x,
            steps_y,
            ctrl,
        ) is Scroll),
        !ctrl ==> wheel_event_of(steps_x, steps_y, ctrl) is Scroll && !(wheel_event_of(
            steps_x,
            steps_y,
            ctrl,
        ) is Zoom),
{
}

/// A zoom takes the tick's vertical steps as they are, so that 125 steps
/// stand for a zoom by e; a scroll takes eight times the steps.
pub proof fn lemma_wheel_zoom_is_unscaled(steps_x: int, steps_y: int)
    ensures
        wheel_event_of(steps_x, steps_y, true) == (EventView::Zoom { dy: steps_y }),
        wheel_event_of(steps_x, steps_y, false) == (EventView::Scroll {
            dx: 8 * steps_x,
            dy: 8 * steps_y,
        }),
{
}

} // verus!
