//! The fixed table from host scancodes to the keys the user interface knows.

use vstd::prelude::*;
use crate::input::Key;
use crate::scancode;

verus! {

/// The letter keys in alphabetical order.
pub open spec fn letters() -> Seq<Key> {
    seq![
        Key::A, Key::B, Key::C, Key::D, Key::E, Key::F, Key::G, Key::H, Key::I, Key::J, Key::K, Key::L, Key::M, Key::N, Key::O, Key::P, Key::Q, Key::R, Key::S, Key::T, Key::U, Key::V, Key::W, Key::X, Key::Y, Key::Z,
    ]
}

/// The digit keys, `Num0` first.
pub open spec fn digits() -> Seq<Key> {
    seq![Key::Num0, Key::Num1, Key::Num2, Key::Num3, Key::Num4, Key::Num5, Key::Num6, Key::Num7, Key::Num8, Key::Num9]
}

/// The key of a scancode that is neither a letter nor a digit.
pub open spec fn named_key_of(code: u32) -> Option<Key> {
    match code {
        scancode::LEFT => Some(Key::ArrowLeft),
        scancode::UP => Some(Key::ArrowUp),
        scancode::RIGHT => Some(Key::ArrowRight),
        scancode::DOWN => Some(Key::ArrowDown),
        scancode::ESCAPE => Some(Key::Escape),
        scancode::TAB => Some(Key::Tab),
        scancode::BACKSPACE => Some(Key::Backspace),
        scancode::SPACE => Some(Key::Space),
        scancode::RETURN => Some(Key::Enter),
        scancode::INSERT => Some(Key::Insert),
        scancode::HOME => Some(Key::Home),
        scancode::DELETE => Some(Key::Delete),
        scancode::END => Some(Key::End),
        scancode::PAGEDOWN => Some(Key::PageDown),
        scancode::PAGEUP => Some(Key::PageUp),
        _ => None,
    }
}

/// The key a scancode stands for, or `None` for a code the user interface has
/// no key for.
///
/// Scancodes run through the letters in alphabetical order, then through the
/// digits of the main row from 1 to 9 with 0 last; the keypad repeats the
/// digits in that order. A digit gives the same key from either place.
pub open spec fn key_of(code: u32) -> Option<Key> {
    if scancode::A <= code <= scancode::Z {
        Some(letters()[code - scancode::A])
    } else if scancode::NUM_1 <= code <= scancode::NUM_9 {
        Some(digits()[code - scancode::NUM_1 + 1])
    } else if scancode::KP_1 <= code <= scancode::KP_9 {
        Some(digits()[code - scancode::KP_1 + 1])
    } else if code == scancode::NUM_0 || code == scancode::KP_0 {
        Some(digits()[0])
    } else {
        named_key_of(code)
    }
}

/// Looks a scancode up in the table. A code without a key gives `None`; the
/// caller drops such an event.
pub fn key_map(code: u32) -> (key: Option<Key>)
    ensures
        key == key_of(code),
{
    match code {
        scancode::LEFT => Some(Key::ArrowLeft),
        scancode::UP => Some(Key::ArrowUp),
        scancode::RIGHT => Some(Key::ArrowRight),
        scancode::DOWN => Some(Key::ArrowDown),
        scancode::ESCAPE => Some(Key::Escape),
        scancode::TAB => Some(Key::Tab),
        scancode::BACKSPACE => Some(Key::Backspace),
        scancode::SPACE => Some(Key::Space),
        scancode::RETURN => Some(Key::Enter),
        scancode::INSERT => Some(Key::Insert),
        scancode::HOME => Some(Key::Home),
        scancode::DELETE => Some(Key::Delete),
        scancode::END => Some(Key::End),
        scancode::PAGEDOWN => Some(Key::PageDown),
        scancode::PAGEUP => Some(Key::PageUp),
        scancode::KP_0 | scancode::NUM_0 => Some(Key::Num0),
        scancode::KP_1 | scancode::NUM_1 => Some(Key::Num1),
        scancode::KP_2 | scancode::NUM_2 => Some(Key::Num2),
        scancode::KP_3 | scancode::NUM_3 => Some(Key::Num3),
        scancode::KP_4 | scancode::NUM_4 => Some(Key::Num4),
        scancode::KP_5 | scancode::NUM_5 => Some(Key::Num5),
        scancode::KP_6 | scancode::NUM_6 => Some(Key::Num6),
        scancode::KP_7 | scancode::NUM_7 => Some(Key::Num7),
        scancode::KP_8 | scancode::NUM_8 => Some(Key::Num8),
        scancode::KP_9 | scancode::NUM_9 => Some(Key::Num9),
        scancode::A => Some(Key::A),
        scancode::B => Some(Key::B),
        scancode::C => Some(Key::C),
        scancode::D => Some(Key::D),
        scancode::E => Some(Key::E),
        scancode::F => Some(Key::F),
        scancode::G => Some(Key::G),
        scancode::H => Some(Key::H),
        scancode::I => Some(Key::I),
        scancode::J => Some(Key::J),
        scancode::K => Some(Key::K),
        scancode::L => Some(Key::L),
        scancode::M => Some(Key::M),
        scancode::N => Some(Key::N),
        scancode::O => Some(Key::O),
        scancode::P => Some(Key::P),
        scancode::Q => Some(Key::Q),
        scancode::R => Some(Key::R),
        scancode::S => Some(Key::S),
        scancode::T => Some(Key::T),
        scancode::U => Some(Key::U),
        scancode::V => Some(Key::V),
        scancode::W => Some(Key::W),
        scancode::X => Some(Key::X),
        scancode::Y => Some(Key::Y),
        scancode::Z => Some(Key::Z),
        _ => None,
    }
}

/// A scancode has a key exactly when it lies in the block of letters, digits
/// and editing keys, in the block of navigation keys, or among the keypad
/// digits.
pub proof fn lemma_key_of_domain(code: u32)
    ensures
        key_of(code) is Some <==> (scancode::A <= code <= scancode::SPACE || scancode::INSERT
            <= code <= scancode::UP || scancode::KP_1 <= code <= scancode::KP_0),
{
}

} // verus!
