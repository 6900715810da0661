use vstd::prelude::*;

use crate::events::{
    button_for_code, key_for_code, Event, Key, KeyboardEvent, MouseButton, MouseEvent,
    WindowEvent,
};
use crate::modifiers::{mods_of, Modifiers};

verus! {

/// What a key or button notification reports about the transition.
#[derive(Debug, Copy, Clone, PartialEq, Eq, Structural)]
pub enum Action {
    Release,
    Press,
    Repeat,
}

/// A window-system notification in plain values. Key and button codes and
/// modifier masks are the native ones. Cursor coordinates are already whole
/// pixels (the window system reports them as floating point), and scroll
/// offsets are IEEE-754 bit patterns.
#[derive(Debug, Copy, Clone, PartialEq, Eq, Structural)]
pub enum NativeEvent {
    Pos(i32, i32),
    Size(i32, i32),
    Close,
    Focus(bool),
    Refresh,
    CursorPos(u64, u64),
    Scroll(u64, u64),
    MouseButton(i32, Action, i32),
    Key(i32, Action, i32),
    /// Any notification kind the runtime does not interpret.
    Other,
}

/// The low 32 bits of `x`: a cursor coordinate beyond `u32` wraps.
pub open spec fn low_u32(x: u64) -> u32 {
    (x % 0x1_0000_0000) as u32
}

/// The event that a native notification becomes.
pub open spec fn translation(n: NativeEvent) -> Event {
    match n {
        NativeEvent::Pos(x, y) => Event::Window(WindowEvent::Move(x, y)),
        NativeEvent::Size(w, h) => Event::Window(WindowEvent::Resize(w, h)),
        NativeEvent::Close => Event::Window(WindowEvent::Close),
        NativeEvent::Focus(gained) => if gained {
            Event::Window(WindowEvent::Focus)
        } else {
            Event::Window(WindowEvent::Blur)
        },
        NativeEvent::Refresh => Event::Nothing,
        NativeEvent::CursorPos(x, y) => Event::Mouse(MouseEvent::Move(low_u32(x), low_u32(y))),
        NativeEvent::Scroll(dx, dy) => Event::Mouse(MouseEvent::Scroll(dx, dy)),
        NativeEvent::MouseButton(code, action, mask) => {
            if 0 <= code < 20 {
                let b = button_for_code(code);
                match action {
                    Action::Release => Event::Mouse(MouseEvent::ButtonRelease(b, mods_of(mask))),
                    Action::Press => Event::Mouse(MouseEvent::ButtonPress(b, mods_of(mask))),
                    Action::Repeat => Event::Nothing,
                }
            } else {
                Event::Nothing
            }
        },
        NativeEvent::Key(code, action, mask) => {
            let k = key_for_code(code);
            match action {
                Action::Release => Event::Keyboard(KeyboardEvent::Release(k, mods_of(mask))),
                Action::Press => Event::Keyboard(KeyboardEvent::Press(k, mods_of(mask), 0)),
                Action::Repeat => Event::Keyboard(KeyboardEvent::Press(k, mods_of(mask), 1)),
            }
        },
        NativeEvent::Other => Event::Nothing,
    }
}

fn truncate_u32(x: u64) -> (r: u32)
    ensures
        r == low_u32(x),
{
    proof {
        assert(x & 0xffff_ffffu64 == x % 0x1_0000_0000u64) by (bit_vector);
    }
    (x & 0xffff_ffffu64) as u32
}

/// Converts one native notification into the event it stands for.
/// Unrecognised notifications, a window refresh and mouse auto-repeat give
/// `Event::Nothing`; a key auto-repeat gives a press whose repeat indicator
/// is 1.
pub fn translate(n: NativeEvent) -> (r: Event)
    ensures
        r == translation(n),
{
    match n {
        NativeEvent::Pos(x, y) => Event::Window(WindowEvent::Move(x, y)),
        NativeEvent::Size(w, h) => Event::Window(WindowEvent::Resize(w, h)),
        NativeEvent::Close => Event::Window(WindowEvent::Close),
        NativeEvent::Focus(gained) => if gained {
            Event::Window(WindowEvent::Focus)
        } else {
            Event::Window(WindowEvent::Blur)
        },
        NativeEvent::Refresh => Event::Nothing,
        NativeEvent::CursorPos(x, y) => Event::Mouse(
            MouseEvent::Move(truncate_u32(x), truncate_u32(y)),
        ),
        NativeEvent::Scroll(dx, dy) => Event::Mouse(MouseEvent::Scroll(dx, dy)),
        NativeEvent::MouseButton(code, action, mask) => {
            match MouseButton::from_code(code) {
                Some(b) => {
                    let mods = Modifiers::from_native(mask);
                    match action {
                        Action::Release => Event::Mouse(MouseEvent::ButtonRelease(b, mods)),
                        Action::Press => Event::Mouse(MouseEvent::ButtonPress(b, mods)),
                        Action::Repeat => Event::Nothing,
                    }
                },
                None => Event::Nothing,
            }
        },
        NativeEvent::Key(code, action, mask) => {
            let k = Key::from_code(code);
            let mods = Modifiers::from_native(mask);
            match action {
                Action::Release => Event::Keyboard(KeyboardEvent::Release(k, mods)),
                Action::Press => Event::Keyboard(KeyboardEvent::Press(k, mods, 0)),
                Action::Repeat => Event::Keyboard(KeyboardEvent::Press(k, mods, 1)),
            }
        },
        NativeEvent::Other => Event::Nothing,
    }
}

/// Whether the notification asks for the window's buffer to be presented at
/// once: only a refresh request does.
pub fn requests_present(n: &NativeEvent) -> (r: bool)
    ensures
        r == (*n == NativeEvent::Refresh),
{
    match n {
        NativeEvent::Refresh => true,
        _ => false,
    }
}

} // verus!
