use hazel::dispatch::{dispatch, Callback};
use hazel::events::{AppEvent, Event, Key, KeyboardEvent, MouseButton, MouseEvent, WindowEvent};
use hazel::log::{log_line, timestamp, to_error_stream, Level, Source};
use hazel::modifiers::{Modifier, Modifiers, ALL_BITS};
use hazel::translate::{requests_present, translate, Action, NativeEvent};
use hazel::transport::EventQueue;

fn callbacks_for(ns: &Vec<NativeEvent>) -> Vec<Callback> {
    let mut q = EventQueue::new();
    q.push_all(ns);
    let mut out = Vec::new();
    while let Some(e) = q.pop() {
        if let Some(c) = dispatch(e) {
            out.push(c);
        }
    }
    out
}

#[test]
fn key_codes_map_to_keys() {
    assert_eq!(Key::from_code(65), Key::A);
    assert_eq!(Key::from_code(90), Key::Z);
    assert_eq!(Key::from_code(32), Key::Space);
    assert_eq!(Key::from_code(48), Key::Num0);
    assert_eq!(Key::from_code(320), Key::Digit0);
    assert_eq!(Key::from_code(256), Key::Esc);
    assert_eq!(Key::from_code(314), Key::F25);
    assert_eq!(Key::from_code(348), Key::Menu);
    assert_eq!(Key::from_code(96), Key::BackTick);
}

#[test]
fn unknown_key_codes_map_to_unknown() {
    assert_eq!(Key::from_code(-1), Key::Unknown);
    assert_eq!(Key::from_code(0), Key::Unknown);
    assert_eq!(Key::from_code(33), Key::Unknown);
    assert_eq!(Key::from_code(349), Key::Unknown);
    assert_eq!(Key::from_code(i32::MAX), Key::Unknown);
    assert_eq!(Key::from_code(i32::MIN), Key::Unknown);
}

#[test]
fn every_code_gives_some_key() {
    let mut known = 0;
    for code in -2..400 {
        if Key::from_code(code) != Key::Unknown {
            known += 1;
        }
    }
    assert_eq!(known, 120);
}

#[test]
fn mouse_button_codes() {
    assert_eq!(MouseButton::from_code(0), Some(MouseButton::Primary));
    assert_eq!(MouseButton::from_code(1), Some(MouseButton::Secondary));
    assert_eq!(MouseButton::from_code(2), Some(MouseButton::Middle));
    assert_eq!(MouseButton::from_code(7), Some(MouseButton::Button8));
    assert_eq!(MouseButton::from_code(19), Some(MouseButton::Button20));
    assert_eq!(MouseButton::from_code(20), None);
    assert_eq!(MouseButton::from_code(-1), None);
}

#[test]
fn modifiers_round_trip() {
    for mask in 0..64 {
        let m = Modifiers::from_native(mask);
        assert_eq!(m.bits(), mask);
        let flags = m.flags();
        let mut rebuilt = 0;
        for f in &flags {
            rebuilt |= f.bit();
        }
        assert_eq!(rebuilt, mask);
    }
}

#[test]
fn modifiers_drop_unnamed_bits() {
    assert_eq!(Modifiers::from_native(0x41).bits(), 0x01);
    assert_eq!(Modifiers::from_bits(0x40), None);
    assert_eq!(Modifiers::from_bits(0x21).map(|m| m.bits()), Some(0x21));
    assert_eq!(Modifiers::from_bits_truncate(-1).bits(), ALL_BITS);
}

#[test]
fn modifiers_set_algebra() {
    let shift = Modifiers::only(Modifier::Shift);
    let ctrl = Modifiers::only(Modifier::Control);
    let both = shift.union(ctrl);
    assert_eq!(both.bits(), 0x03);
    assert!(both.contains(shift));
    assert!(!shift.contains(both));
    assert!(both.has(Modifier::Control));
    assert!(!both.has(Modifier::Alt));
    assert_eq!(both.intersection(ctrl), ctrl);
    assert_eq!(both.difference(ctrl), shift);
    assert!(Modifiers::empty().is_empty());
    assert!(!both.is_empty());
    assert!(Modifiers::all().is_all());
    assert!(both.intersects(shift));
    assert!(!shift.intersects(ctrl));
    let mut m = Modifiers::empty();
    m.insert(both);
    m.remove(shift);
    assert_eq!(m, ctrl);
    assert_eq!(both.flags(), vec![Modifier::Shift, Modifier::Control]);
}

#[test]
fn translation_policy() {
    let none = Modifiers::empty();
    assert_eq!(translate(NativeEvent::Pos(10, -20)), Event::Window(WindowEvent::Move(10, -20)));
    assert_eq!(translate(NativeEvent::Close), Event::Window(WindowEvent::Close));
    assert_eq!(translate(NativeEvent::Focus(true)), Event::Window(WindowEvent::Focus));
    assert_eq!(translate(NativeEvent::Focus(false)), Event::Window(WindowEvent::Blur));
    assert_eq!(translate(NativeEvent::Refresh), Event::Nothing);
    assert_eq!(translate(NativeEvent::Other), Event::Nothing);
    assert_eq!(translate(NativeEvent::CursorPos(12, 34)), Event::Mouse(MouseEvent::Move(12, 34)));
    assert_eq!(
        translate(NativeEvent::CursorPos(0x1_0000_0005, 7)),
        Event::Mouse(MouseEvent::Move(5, 7))
    );
    assert_eq!(
        translate(NativeEvent::MouseButton(1, Action::Press, 0)),
        Event::Mouse(MouseEvent::ButtonPress(MouseButton::Secondary, none))
    );
    assert_eq!(
        translate(NativeEvent::MouseButton(0, Action::Release, 2)),
        Event::Mouse(MouseEvent::ButtonRelease(MouseButton::Primary, Modifiers::only(Modifier::Control)))
    );
    assert_eq!(translate(NativeEvent::MouseButton(0, Action::Repeat, 0)), Event::Nothing);
    assert_eq!(translate(NativeEvent::MouseButton(25, Action::Press, 0)), Event::Nothing);
    assert_eq!(
        translate(NativeEvent::Key(400, Action::Press, 0)),
        Event::Keyboard(KeyboardEvent::Press(Key::Unknown, none, 0))
    );
}

#[test]
fn only_refresh_requests_present() {
    assert!(requests_present(&NativeEvent::Refresh));
    assert!(!requests_present(&NativeEvent::Close));
    assert!(!requests_present(&NativeEvent::Other));
}

#[test]
fn scenario_resize() {
    let calls = callbacks_for(&vec![NativeEvent::Size(800, 600)]);
    assert_eq!(calls, vec![Callback::WindowResize(800, 600)]);
}

#[test]
fn scenario_key_press_release() {
    let calls = callbacks_for(&vec![
        NativeEvent::Key(65, Action::Press, 0),
        NativeEvent::Key(65, Action::Release, 0),
    ]);
    let none = Modifiers::empty();
    assert_eq!(calls, vec![Callback::KeyDown(Key::A, none, 0), Callback::KeyUp(Key::A, none)]);
}

#[test]
fn scenario_close_reaches_window_close() {
    let calls = callbacks_for(&vec![NativeEvent::Close]);
    assert_eq!(calls, vec![Callback::WindowClose]);
}

#[test]
fn scenario_scroll_passthrough() {
    let dx: f64 = 1.0;
    let dy: f64 = -1.0;
    let calls = callbacks_for(&vec![NativeEvent::Scroll(dx.to_bits(), dy.to_bits())]);
    assert_eq!(calls.len(), 1);
    match calls[0] {
        Callback::Scroll(x, y) => {
            assert_eq!(f64::from_bits(x), 1.0);
            assert_eq!(f64::from_bits(y), -1.0);
        }
        _ => panic!("expected a scroll callback"),
    }
}

#[test]
fn repeat_indicator_is_one_per_repeat() {
    let mut ns = vec![NativeEvent::Key(66, Action::Press, 1)];
    for _ in 0..3 {
        ns.push(NativeEvent::Key(66, Action::Repeat, 1));
    }
    let shift = Modifiers::only(Modifier::Shift);
    let calls = callbacks_for(&ns);
    assert_eq!(
        calls,
        vec![
            Callback::KeyDown(Key::B, shift, 0),
            Callback::KeyDown(Key::B, shift, 1),
            Callback::KeyDown(Key::B, shift, 1),
            Callback::KeyDown(Key::B, shift, 1),
        ]
    );
}

#[test]
fn order_kept_and_nothing_filtered() {
    let ns = vec![
        NativeEvent::Refresh,
        NativeEvent::Pos(1, 2),
        NativeEvent::Other,
        NativeEvent::Focus(true),
        NativeEvent::MouseButton(0, Action::Repeat, 0),
        NativeEvent::CursorPos(3, 4),
    ];
    let mut q = EventQueue::new();
    q.push_all(&ns);
    assert_eq!(q.len(), 3);
    assert_eq!(q.pop(), Some(Event::Window(WindowEvent::Move(1, 2))));
    assert_eq!(q.pop(), Some(Event::Window(WindowEvent::Focus)));
    assert_eq!(q.pop(), Some(Event::Mouse(MouseEvent::Move(3, 4))));
    assert_eq!(q.pop(), None);
    assert!(q.is_empty());
}

#[test]
fn queue_drops_nothing() {
    let mut q = EventQueue::new();
    q.push(Event::Nothing);
    assert!(q.is_empty());
    q.push(Event::App(AppEvent::Tick));
    q.push(Event::Nothing);
    assert_eq!(q.len(), 1);
}

#[test]
fn dispatch_table() {
    assert_eq!(dispatch(Event::Nothing), None);
    assert_eq!(dispatch(Event::App(AppEvent::Tick)), Some(Callback::Tick));
    assert_eq!(dispatch(Event::App(AppEvent::Update)), Some(Callback::Update));
    assert_eq!(dispatch(Event::App(AppEvent::Render)), Some(Callback::Render));
    assert_eq!(dispatch(Event::Window(WindowEvent::Focus)), None);
    assert_eq!(dispatch(Event::Window(WindowEvent::Blur)), None);
    assert_eq!(dispatch(Event::Window(WindowEvent::Move(-3, 4))), Some(Callback::WindowMove(-3, 4)));
    assert_eq!(
        dispatch(Event::Mouse(MouseEvent::ButtonRelease(MouseButton::Middle, Modifiers::empty()))),
        Some(Callback::MouseUp(MouseButton::Middle, Modifiers::empty()))
    );
}

#[test]
fn timestamp_client_record() {
    let s = timestamp(Level::Debug, Source::Client, "12:34:56.789");
    assert_eq!(s, "\x1b[38;5;8m12:34:56.789\x1b[0m \x1b[1;38;5;3m DEBG \x1b[0m");
}

#[test]
fn timestamp_core_record() {
    let s = timestamp(Level::Error, Source::Core, "00:00:00.000");
    assert_eq!(
        s,
        "\x1b[38;5;8m00:00:00.000\x1b[0m \x1b[1;7;38;5;9m ERRR \x1b[0m \x1b[1;38;5;3mhazel\x1b[0m:"
    );
}

#[test]
fn log_line_appends_message() {
    let s = log_line(Level::Okay, Source::Client, "t", "ready");
    assert_eq!(s, "\x1b[38;5;8mt\x1b[0m \x1b[1;7;38;5;2m OKAY \x1b[0m ready");
}

#[test]
fn only_errors_go_to_error_stream() {
    assert!(to_error_stream(Level::Error));
    assert!(!to_error_stream(Level::Fatal));
    assert!(!to_error_stream(Level::Warn));
    assert!(!to_error_stream(Level::Debug));
}
