//! The neutral vocabulary that input translators produce and the frame
//! builder consumes.

use vstd::prelude::*;

verus! {

/// A key the user interface knows about.
#[derive(Clone, Copy, Debug, PartialEq, Eq, Structural)]
pub enum Key {
    ArrowDown,
    ArrowLeft,
    ArrowRight,
    ArrowUp,
    Escape,
    Tab,
    Backspace,
    Enter,
    Space,
    Insert,
    Delete,
    Home,
    End,
    PageUp,
    PageDown,
    Num0,
    Num1,
    Num2,
    Num3,
    Num4,
    Num5,
    Num6,
    Num7,
    Num8,
    Num9,
    A,
    B,
    C,
    D,
    E,
    F,
    G,
    H,
    I,
    J,
    K,
    L,
    M,
    N,
    O,
    P,
    Q,
    R,
    S,
    T,
    U,
    V,
    W,
    X,
    Y,
    Z,
}

/// The host keyboard's modifier keys at the moment an event was captured.
#[derive(Clone, Copy, Debug, PartialEq, Eq, Structural)]
pub struct ModState {
    pub left_shift: bool,
    pub right_shift: bool,
    pub left_ctrl: bool,
    pub right_ctrl: bool,
    pub left_alt: bool,
    pub right_alt: bool,
    pub left_gui: bool,
    pub right_gui: bool,
}

/// The modifier snapshot a user-interface event carries.
#[derive(Clone, Copy, Debug, PartialEq, Eq, Structural)]
pub struct Modifiers {
    pub alt: bool,
    pub ctrl: bool,
    pub shift: bool,
    /// The platform meta key.
    pub mac_cmd: bool,
    /// The platform's command key: left control or left meta.
    pub command: bool,
}

impl ModState {
    /// No modifier key held.
    pub fn none() -> (mods: ModState)
        ensures
            mods == (ModState {
                left_shift: false,
                right_shift: false,
                left_ctrl: false,
                right_ctrl: false,
                left_alt: false,
                right_alt: false,
                left_gui: false,
                right_gui: false,
            }),
    {
        ModState {
            left_shift: false,
            right_shift: false,
            left_ctrl: false,
            right_ctrl: false,
            left_alt: false,
            right_alt: false,
            left_gui: false,
            right_gui: false,
        }
    }

    /// Whether either control key is held.
    pub open spec fn ctrl_held(self) -> bool {
        self.left_ctrl || self.right_ctrl
    }

    /// The snapshot an event carries: each modifier counts as held when
    /// either of its two keys is, and the command key is left control or
    /// left meta.
    pub open spec fn as_modifiers(self) -> Modifiers {
        Modifiers {
            alt: self.left_alt || self.right_alt,
            ctrl: self.left_ctrl || self.right_ctrl,
            shift: self.left_shift || self.right_shift,
            mac_cmd: self.left_gui || self.right_gui,
            command: self.left_ctrl || self.left_gui,
        }
    }

    pub fn ctrl(&self) -> (held: bool)
        ensures
            held == self.ctrl_held(),
    {
        self.left_ctrl || self.right_ctrl
    }

    pub fn modifiers(&self) -> (modifiers: Modifiers)
        ensures
            modifiers == self.as_modifiers(),
    {
        Modifiers {
            alt: self.left_alt || self.right_alt,
            ctrl: self.left_ctrl || self.right_ctrl,
            shift: self.left_shift || self.right_shift,
            mac_cmd: self.left_gui || self.right_gui,
            command: self.left_ctrl || self.left_gui,
        }
    }
}

/// A mouse button as the host reports it.
#[derive(Clone, Copy, Debug, PartialEq, Eq, Structural)]
pub enum MouseButton {
    Left,
    Middle,
    Right,
    X1,
    X2,
}

/// A pointer button the user interface knows about.
#[derive(Clone, Copy, Debug, PartialEq, Eq, Structural)]
pub enum PointerButton {
    Primary,
    Secondary,
    Middle,
}

/// One input event in the form the user interface consumes.
///
/// Positions and scroll distances are whole pixels. A `Zoom` carries the
/// vertical wheel steps `dy` of its tick, unscaled; the zoom factor it
/// stands for is `e^(dy / 125)`.
#[derive(Clone, Debug, PartialEq, Eq)]
pub enum Event {
    Copy,
    Cut,
    Text(String),
    Key { key: Key, pressed: bool, modifiers: Modifiers },
    PointerMoved { x: i32, y: i32 },
    PointerButton { x: i32, y: i32, button: PointerButton, pressed: bool, modifiers: Modifiers },
    Scroll { dx: i64, dy: i64 },
    Zoom { dy: i64 },
    CompositionUpdate(String),
}

/// The mathematical value of an [`Event`]: text is a sequence of characters.
pub enum EventView {
    Copy,
    Cut,
    Text(Seq<char>),
    Key { key: Key, pressed: bool, modifiers: Modifiers },
    PointerMoved { x: int, y: int },
    PointerButton { x: int, y: int, button: PointerButton, pressed: bool, modifiers: Modifiers },
    Scroll { dx: int, dy: int },
    Zoom { dy: int },
    CompositionUpdate(Seq<char>),
}

impl View for Event {
    type V = EventView;

    open spec fn view(&self) -> EventView {
        match *self {
            Event::Copy => EventView::Copy,
            Event::Cut => EventView::Cut,
            Event::Text(text) => EventView::Text(text@),
            Event::Key { key, pressed, modifiers } => EventView::Key { key, pressed, modifiers },
            Event::PointerMoved { x, y } => EventView::PointerMoved { x: x as int, y: y as int },
            Event::PointerButton { x, y, button, pressed, modifiers } => EventView::PointerButton {
                x: x as int,
                y: y as int,
                button,
                pressed,
                modifiers,
            },
            Event::Scroll { dx, dy } => EventView::Scroll { dx: dx as int, dy: dy as int },
            Event::Zoom { dy } => EventView::Zoom { dy: dy as int },
            Event::CompositionUpdate(text) => EventView::CompositionUpdate(text@),
        }
    }
}

} // verus!
