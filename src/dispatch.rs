use vstd::prelude::*;

use crate::events::{AppEvent, Event, Key, KeyboardEvent, MouseButton, MouseEvent, WindowEvent};
use crate::modifiers::Modifiers;

verus! {

/// One invocation of an application callback, with its arguments. Each
/// variant names the callback it stands for (`Tick` is `tick`, `KeyDown` is
/// `on_keydown`, and so on). Scroll offsets are IEEE-754 bit patterns.
#[derive(Debug, Copy, Clone, PartialEq, Eq, Structural)]
pub enum Callback {
    Tick,
    Update,
    Render,
    WindowResize(i32, i32),
    WindowMove(i32, i32),
    WindowClose,
    KeyDown(Key, Modifiers, u32),
    KeyUp(Key, Modifiers),
    MouseDown(MouseButton, Modifiers),
    MouseUp(MouseButton, Modifiers),
    MouseMove(u32, u32),
    Scroll(u64, u64),
}

/// The callback that handles `e`. Focus and blur have none, and neither has
/// `Event::Nothing`.
pub open spec fn callback_for(e: Event) -> Option<Callback> {
    match e {
        Event::App(AppEvent::Tick) => Some(Callback::Tick),
        Event::App(AppEvent::Update) => Some(Callback::Update),
        Event::App(AppEvent::Render) => Some(Callback::Render),
        Event::Window(WindowEvent::Resize(w, h)) => Some(Callback::WindowResize(w, h)),
        Event::Window(WindowEvent::Move(x, y)) => Some(Callback::WindowMove(x, y)),
        Event::Window(WindowEvent::Close) => Some(Callback::WindowClose),
        Event::Window(WindowEvent::Focus) => None,
        Event::Window(WindowEvent::Blur) => None,
        Event::Keyboard(KeyboardEvent::Press(k, m, repeat)) => Some(Callback::KeyDown(k, m, repeat)),
        Event::Keyboard(KeyboardEvent::Release(k, m)) => Some(Callback::KeyUp(k, m)),
        Event::Mouse(MouseEvent::ButtonPress(b, m)) => Some(Callback::MouseDown(b, m)),
        Event::Mouse(MouseEvent::ButtonRelease(b, m)) => Some(Callback::MouseUp(b, m)),
        Event::Mouse(MouseEvent::Move(x, y)) => Some(Callback::MouseMove(x, y)),
        Event::Mouse(MouseEvent::Scroll(dx, dy)) => Some(Callback::Scroll(dx, dy)),
        Event::Nothing => None,
    }
}

/// Decides which callback, if any, a dequeued event is handed to.
pub fn dispatch(e: Event) -> (r: Option<Callback>)
    ensures
        r == callback_for(e),
        e is Nothing ==> r is None,
{
    match e {
        Event::App(a) => match a {
            AppEvent::Tick => Some(Callback::Tick),
            AppEvent::Update => Some(Callback::Update),
            AppEvent::Render => Some(Callback::Render),
        },
        Event::Window(w) => match w {
            WindowEvent::Resize(width, height) => Some(Callback::WindowResize(width, height)),
            WindowEvent::Move(x, y) => Some(Callback::WindowMove(x, y)),
            WindowEvent::Close => Some(Callback::WindowClose),
            WindowEvent::Focus => None,
            WindowEvent::Blur => None,
        },
        Event::Keyboard(k) => match k {
            KeyboardEvent::Press(key, mods, repeat) => Some(Callback::KeyDown(key, mods, repeat)),
            KeyboardEvent::Release(key, mods) => Some(Callback::KeyUp(key, mods)),
        },
        Event::Mouse(m) => match m {
            MouseEvent::ButtonPress(b, mods) => Some(Callback::MouseDown(b, mods)),
            MouseEvent::ButtonRelease(b, mods) => Some(Callback::MouseUp(b, mods)),
            MouseEvent::Move(x, y) => Some(Callback::MouseMove(x, y)),
            MouseEvent::Scroll(dx, dy) => Some(Callback::Scroll(dx, dy)),
        },
        Event::Nothing => None,
    }
}

} // verus!
