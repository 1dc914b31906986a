//! The decisions of the render driver, and the guard on surface resizes.
//! The driver itself ends the frame, talks to the clipboard, the input
//! method and the GPU; what it does with their answers is decided here.

use vstd::prelude::*;

verus! {

/// Width of the composition area placed at the text cursor.
pub const IME_AREA_WIDTH: u32 = 100;

/// Height of the composition area placed at the text cursor.
pub const IME_AREA_HEIGHT: u32 = 50;

/// What to tell the input method after a frame.
#[derive(Clone, Copy, Debug, PartialEq, Eq, Structural)]
pub enum ImeCommand {
    Start,
    Stop,
}

/// Where the input method shows its composition.
#[derive(Clone, Copy, Debug, PartialEq, Eq, Structural)]
pub struct ImeArea {
    pub x: i32,
    pub y: i32,
    pub width: u32,
    pub height: u32,
}

/// Width and height of the presentation surface, in pixels.
#[derive(Clone, Copy, Debug, PartialEq, Eq, Structural)]
pub struct SurfaceSize {
    pub width: u32,
    pub height: u32,
}

/// The text to write to the clipboard after a frame: what the user
/// interface copied, unless that is empty.
pub fn clipboard_text(copied_text: String) -> (text: Option<String>)
    ensures
        copied_text@.len() == 0 ==> text is None,
        copied_text@.len() > 0 ==> text == Some(copied_text),
{
    if copied_text.as_str().is_empty() {
        None
    } else {
        Some(copied_text)
    }
}

/// The input method runs exactly while the user interface wants keyboard
/// input.
pub fn ime_command(wants_keyboard: bool) -> (command: ImeCommand)
    ensures
        command == if wants_keyboard {
            ImeCommand::Start
        } else {
            ImeCommand::Stop
        },
{
    if wants_keyboard {
        ImeCommand::Start
    } else {
        ImeCommand::Stop
    }
}

/// The composition area to set: a box of fixed size at the text cursor,
/// provided the input method is active and the frame has a text cursor.
pub fn ime_area(active: bool, cursor: Option<(i32, i32)>) -> (area: Option<ImeArea>)
    ensures
        area == match cursor {
            Some((x, y)) if active => Some(
                ImeArea { x, y, width: IME_AREA_WIDTH, height: IME_AREA_HEIGHT },
            ),
            _ => None,
        },
{
    match cursor {
        Some((x, y)) => if active {
            Some(ImeArea { x, y, width: IME_AREA_WIDTH, height: IME_AREA_HEIGHT })
        } else {
            None
        },
        None => None,
    }
}

/// Whether a resize to `width` by `height` reconfigures the surface: it
/// does unless either side is zero.
pub open spec fn reconfigures(width: u32, height: u32) -> bool {
    width != 0 && height != 0
}

/// Applies a window resize to the surface size. A resize to zero width or
/// zero height is ignored; any other is taken over, and the caller has to
/// reconfigure the surface with the new size before it renders again.
pub fn resize(size: &mut SurfaceSize, width: u32, height: u32) -> (reconfigure: bool)
    ensures
        reconfigure == reconfigures(width, height),
        reconfigure ==> *final(size) == (SurfaceSize { width, height }),
        !reconfigure ==> *final(size) == *old(size),
{
    if width == 0 || height == 0 {
        false
    } else {
        size.width = width;
        size.height = height;
        true
    }
}

} // verus!
