use vstd::prelude::*;

use crate::modifiers::Modifiers;

verus! {

/// Everything the runtime can deliver to application logic. `Nothing` marks a
/// native notification that carries no meaning downstream; it is never handed
/// to a callback.
#[derive(Debug, Copy, Clone, PartialEq, Eq, Structural)]
pub enum Event {
    App(AppEvent),
    Window(WindowEvent),
    Keyboard(KeyboardEvent),
    Mouse(MouseEvent),
    Nothing,
}

/// Geometry and lifecycle changes of the window.
#[derive(Debug, Copy, Clone, PartialEq, Eq, Structural)]
pub enum WindowEvent {
    Close,
    Resize(i32, i32),
    Focus,
    Blur,
    Move(i32, i32),
}

/// Lifecycle pulses of the application itself.
#[derive(Debug, Copy, Clone, PartialEq, Eq, Structural)]
pub enum AppEvent {
    Tick,
    Update,
    Render,
}

/// Key transitions. The `u32` of `Press` is the repeat indicator: 0 for the
/// first press, 1 for each auto-repeat delivery while the key is held.
#[derive(Debug, Copy, Clone, PartialEq, Eq, Structural)]
pub enum KeyboardEvent {
    Press(Key, Modifiers, u32),
    Release(Key, Modifiers),
}

/// Pointer input. `Move` is in absolute window pixels. The two `u64` of
/// `Scroll` are the IEEE-754 bit patterns of the horizontal and vertical
/// offsets, carried unchanged from the window system.
#[derive(Debug, Copy, Clone, PartialEq, Eq, Structural)]
pub enum MouseEvent {
    ButtonPress(MouseButton, Modifiers),
    ButtonRelease(MouseButton, Modifiers),
    Move(u32, u32),
    Scroll(u64, u64),
}

/// Symbolic keys. `Unknown` stands for every native code outside the table.
#[derive(Debug, Copy, Clone, PartialEq, Eq, Structural)]
pub enum Key {
    A, B, C, D, E, F, G, H, I, J, K, L, M, N, O, P, Q, R, S, T, U, V, W, X, Y, Z,
    CtrlLeft, CtrlRight, ShiftLeft, ShiftRight, AltLeft, AltRight, OSLeft, OSRight, Menu,
    CapsLock, NumLock, ScrollLock,
    Digit0, Digit1, Digit2, Digit3, Digit4, Digit5, Digit6, Digit7, Digit8, Digit9,
    Num0, Num1, Num2, Num3, Num4, Num5, Num6, Num7, Num8, Num9,
    NumDecimal, NumDivide, NumMultiply, NumMinus, NumPlus, NumEnter, NumEqual,
    F1, F2, F3, F4, F5, F6, F7, F8, F9, F10, F11, F12, F13,
    F14, F15, F16, F17, F18, F19, F20, F21, F22, F23, F24, F25,
    PrintScreen, SysRq, Pause,
    Insert, Delete, Home, End, PageUp, PageDown,
    Up, Right, Down, Left,
    BracketLeft, BracketRight, Backslash,
    Semicolon, Apostrophe, Comma, Period, Slash, BackTick, Minus, Equal,
    Tab, Enter, Esc, Space, Backspace,
    World1, World2,
    Unknown,
}

/// The native (GLFW) key code that names `k`, if the window system has one.
/// `SysRq` has no code of its own, and `Unknown` stands for none in particular.
pub open spec fn native_key_code(k: Key) -> Option<i32> {
    match k {
        Key::Space => Some(32i32),
        Key::Apostrophe => Some(39i32),
        Key::Comma => Some(44i32),
        Key::Minus => Some(45i32),
        Key::Period => Some(46i32),
        Key::Slash => Some(47i32),
        Key::Num0 => Some(48i32),
        Key::Num1 => Some(49i32),
        Key::Num2 => Some(50i32),
        Key::Num3 => Some(51i32),
        Key::Num4 => Some(52i32),
        Key::Num5 => Some(53i32),
        Key::Num6 => Some(54i32),
        Key::Num7 => Some(55i32),
        Key::Num8 => Some(56i32),
        Key::Num9 => Some(57i32),
        Key::Semicolon => Some(59i32),
        Key::Equal => Some(61i32),
        Key::A => Some(65i32),
        Key::B => Some(66i32),
        Key::C => Some(67i32),
        Key::D => Some(68i32),
        Key::E => Some(69i32),
        Key::F => Some(70i32),
        Key::G => Some(71i32),
        Key::H => Some(72i32),
        Key::I => Some(73i32),
        Key::J => Some(74i32),
        Key::K => Some(75i32),
        Key::L => Some(76i32),
        Key::M => Some(77i32),
        Key::N => Some(78i32),
        Key::O => Some(79i32),
        Key::P => Some(80i32),
        Key::Q => Some(81i32),
        Key::R => Some(82i32),
        Key::S => Some(83i32),
        Key::T => Some(84i32),
        Key::U => Some(85i32),
        Key::V => Some(86i32),
        Key::W => Some(87i32),
        Key::X => Some(88i32),
        Key::Y => Some(89i32),
        Key::Z => Some(90i32),
        Key::BracketLeft => Some(91i32),
        Key::Backslash => Some(92i32),
        Key::BracketRight => Some(93i32),
        Key::BackTick => Some(96i32),
        Key::World1 => Some(161i32),
        Key::World2 => Some(162i32),
        Key::Esc => Some(256i32),
        Key::Enter => Some(257i32),
        Key::Tab => Some(258i32),
        Key::Backspace => Some(259i32),
        Key::Insert => Some(260i32),
        Key::Delete => Some(261i32),
        Key::Right => Some(262i32),
        Key::Left => Some(263i32),
        Key::Down => Some(264i32),
        Key::Up => Some(265i32),
        Key::PageUp => Some(266i32),
        Key::PageDown => Some(267i32),
        Key::Home => Some(268i32),
        Key::End => Some(269i32),
        Key::CapsLock => Some(280i32),
        Key::ScrollLock => Some(281i32),
        Key::NumLock => Some(282i32),
        Key::PrintScreen => Some(283i32),
        Key::Pause => Some(284i32),
        Key::F1 => Some(290i32),
        Key::F2 => Some(291i32),
        Key::F3 => Some(292i32),
        Key::F4 => Some(293i32),
        Key::F5 => Some(294i32),
        Key::F6 => Some(295i32),
        Key::F7 => Some(296i32),
        Key::F8 => Some(297i32),
        Key::F9 => Some(298i32),
        Key::F10 => Some(299i32),
        Key::F11 => Some(300i32),
        Key::F12 => Some(301i32),
        Key::F13 => Some(302i32),
        Key::F14 => Some(303i32),
        Key::F15 => Some(304i32),
        Key::F16 => Some(305i32),
        Key::F17 => Some(306i32),
        Key::F18 => Some(307i32),
        Key::F19 => Some(308i32),
        Key::F20 => Some(309i32),
        Key::F21 => Some(310i32),
        Key::F22 => Some(311i32),
        Key::F23 => Some(312i32),
        Key::F24 => Some(313i32),
        Key::F25 => Some(314i32),
        Key::Digit0 => Some(320i32),
        Key::Digit1 => Some(321i32),
        Key::Digit2 => Some(322i32),
        Key::Digit3 => Some(323i32),
        Key::Digit4 => Some(324i32),
        Key::Digit5 => Some(325i32),
        Key::Digit6 => Some(326i32),
        Key::Digit7 => Some(327i32),
        Key::Digit8 => Some(328i32),
        Key::Digit9 => Some(329i32),
        Key::NumDecimal => Some(330i32),
        Key::NumDivide => Some(331i32),
        Key::NumMultiply => Some(332i32),
        Key::NumMinus => Some(333i32),
        Key::NumPlus => Some(334i32),
        Key::NumEnter => Some(335i32),
        Key::NumEqual => Some(336i32),
        Key::ShiftLeft => Some(340i32),
        Key::CtrlLeft => Some(341i32),
        Key::AltLeft => Some(342i32),
        Key::OSLeft => Some(343i32),
        Key::ShiftRight => Some(344i32),
        Key::CtrlRight => Some(345i32),
        Key::AltRight => Some(346i32),
        Key::OSRight => Some(347i32),
        Key::Menu => Some(348i32),
        Key::SysRq => None,
        Key::Unknown => None,
    }
}

/// Whether some key is named by the native code `code`.
pub open spec fn is_known_key_code(code: i32) -> bool {
    exists|k: Key| #[trigger] native_key_code(k) == Some(code)
}

/// The key that a native key code names: the one whose code it is, or
/// `Unknown` where no key has it.
pub open spec fn key_for_code(code: i32) -> Key {
    if is_known_key_code(code) {
        choose|k: Key| native_key_code(k) == Some(code)
    } else {
        Key::Unknown
    }
}

impl Key {
    /// Maps a native key code to its key; the mapping is total, and every code
    /// outside the table gives `Unknown`.
    #[verifier::rlimit(40)]
    pub fn from_code(code: i32) -> (r: Key)
        ensures
            r == key_for_code(code),
            r != Key::Unknown ==> native_key_code(r) == Some(code),
            forall|k: Key| #[trigger] native_key_code(k) == Some(code) ==> r == k,
            !is_known_key_code(code) ==> r == Key::Unknown,
    {
        match code {
            32i32 => Key::Space,
            39i32 => Key::Apostrophe,
            44i32 => Key::Comma,
            45i32 => Key::Minus,
            46i32 => Key::Period,
            47i32 => Key::Slash,
            48i32 => Key::Num0,
            49i32 => Key::Num1,
            50i32 => Key::Num2,
            51i32 => Key::Num3,
            52i32 => Key::Num4,
            53i32 => Key::Num5,
            54i32 => Key::Num6,
            55i32 => Key::Num7,
            56i32 => Key::Num8,
            57i32 => Key::Num9,
            59i32 => Key::Semicolon,
            61i32 => Key::Equal,
            65i32 => Key::A,
            66i32 => Key::B,
            67i32 => Key::C,
            68i32 => Key::D,
            69i32 => Key::E,
            70i32 => Key::F,
            71i32 => Key::G,
            72i32 => Key::H,
            73i32 => Key::I,
            74i32 => Key::J,
            75i32 => Key::K,
            76i32 => Key::L,
            77i32 => Key::M,
            78i32 => Key::N,
            79i32 => Key::O,
            80i32 => Key::P,
            81i32 => Key::Q,
            82i32 => Key::R,
            83i32 => Key::S,
            84i32 => Key::T,
            85i32 => Key::U,
            86i32 => Key::V,
            87i32 => Key::W,
            88i32 => Key::X,
            89i32 => Key::Y,
            90i32 => Key::Z,
            91i32 => Key::BracketLeft,
            92i32 => Key::Backslash,
            93i32 => Key::BracketRight,
            96i32 => Key::BackTick,
            161i32 => Key::World1,
            162i32 => Key::World2,
            256i32 => Key::Esc,
            257i32 => Key::Enter,
            258i32 => Key::Tab,
            259i32 => Key::Backspace,
            260i32 => Key::Insert,
            261i32 => Key::Delete,
            262i32 => Key::Right,
            263i32 => Key::Left,
            264i32 => Key::Down,
            265i32 => Key::Up,
            266i32 => Key::PageUp,
            267i32 => Key::PageDown,
            268i32 => Key::Home,
            269i32 => Key::End,
            280i32 => Key::CapsLock,
            281i32 => Key::ScrollLock,
            282i32 => Key::NumLock,
            283i32 => Key::PrintScreen,
            284i32 => Key::Pause,
            290i32 => Key::F1,
            291i32 => Key::F2,
            292i32 => Key::F3,
            293i32 => Key::F4,
            294i32 => Key::F5,
            295i32 => Key::F6,
            296i32 => Key::F7,
            297i32 => Key::F8,
            298i32 => Key::F9,
            299i32 => Key::F10,
            300i32 => Key::F11,
            301i32 => Key::F12,
            302i32 => Key::F13,
            303i32 => Key::F14,
            304i32 => Key::F15,
            305i32 => Key::F16,
            306i32 => Key::F17,
            307i32 => Key::F18,
            308i32 => Key::F19,
            309i32 => Key::F20,
            310i32 => Key::F21,
            311i32 => Key::F22,
            312i32 => Key::F23,
            313i32 => Key::F24,
            314i32 => Key::F25,
            320i32 => Key::Digit0,
            321i32 => Key::Digit1,
            322i32 => Key::Digit2,
            323i32 => Key::Digit3,
            324i32 => Key::Digit4,
            325i32 => Key::Digit5,
            326i32 => Key::Digit6,
            327i32 => Key::Digit7,
            328i32 => Key::Digit8,
            329i32 => Key::Digit9,
            330i32 => Key::NumDecimal,
            331i32 => Key::NumDivide,
            332i32 => Key::NumMultiply,
            333i32 => Key::NumMinus,
            334i32 => Key::NumPlus,
            335i32 => Key::NumEnter,
            336i32 => Key::NumEqual,
            340i32 => Key::ShiftLeft,
            341i32 => Key::CtrlLeft,
            342i32 => Key::AltLeft,
            343i32 => Key::OSLeft,
            344i32 => Key::ShiftRight,
            345i32 => Key::CtrlRight,
            346i32 => Key::AltRight,
            347i32 => Key::OSRight,
            348i32 => Key::Menu,
            _ => Key::Unknown,
        }
    }
}

/// Mouse buttons: the three usual ones, the two side buttons, and fifteen
/// numbered auxiliary buttons.
#[derive(Debug, Copy, Clone, PartialEq, Eq, Structural)]
pub enum MouseButton {
    Primary,
    Secondary,
    Middle,
    Back,
    Forward,
    Button6,
    Button7,
    Button8,
    Button9,
    Button10,
    Button11,
    Button12,
    Button13,
    Button14,
    Button15,
    Button16,
    Button17,
    Button18,
    Button19,
    Button20,
}

/// The zero-based native code of each button, in declaration order.
pub open spec fn native_button_code(b: MouseButton) -> int {
    match b {
        MouseButton::Primary => 0,
        MouseButton::Secondary => 1,
        MouseButton::Middle => 2,
        MouseButton::Back => 3,
        MouseButton::Forward => 4,
        MouseButton::Button6 => 5,
        MouseButton::Button7 => 6,
        MouseButton::Button8 => 7,
        MouseButton::Button9 => 8,
        MouseButton::Button10 => 9,
        MouseButton::Button11 => 10,
        MouseButton::Button12 => 11,
        MouseButton::Button13 => 12,
        MouseButton::Button14 => 13,
        MouseButton::Button15 => 14,
        MouseButton::Button16 => 15,
        MouseButton::Button17 => 16,
        MouseButton::Button18 => 17,
        MouseButton::Button19 => 18,
        MouseButton::Button20 => 19,
    }
}

/// The button whose native code is `code`, where one has it.
pub open spec fn button_for_code(code: i32) -> MouseButton {
    choose|b: MouseButton| native_button_code(b) == code
}

impl MouseButton {
    /// Maps a native button code to its button. Every code from 0 to 19 has
    /// one; there is no fallback for codes outside that range.
    pub fn from_code(code: i32) -> (r: Option<MouseButton>)
        ensures
            (0 <= code < 20) <==> r.is_some(),
            r matches Some(b) ==> native_button_code(b) == code && b == button_for_code(code),
    {
        let r = match code {
            0i32 => Some(MouseButton::Primary),
            1i32 => Some(MouseButton::Secondary),
            2i32 => Some(MouseButton::Middle),
            3i32 => Some(MouseButton::Back),
            4i32 => Some(MouseButton::Forward),
            5i32 => Some(MouseButton::Button6),
            6i32 => Some(MouseButton::Button7),
            7i32 => Some(MouseButton::Button8),
            8i32 => Some(MouseButton::Button9),
            9i32 => Some(MouseButton::Button10),
            10i32 => Some(MouseButton::Button11),
            11i32 => Some(MouseButton::Button12),
            12i32 => Some(MouseButton::Button13),
            13i32 => Some(MouseButton::Button14),
            14i32 => Some(MouseButton::Button15),
            15i32 => Some(MouseButton::Button16),
            16i32 => Some(MouseButton::Button17),
            17i32 => Some(MouseButton::Button18),
            18i32 => Some(MouseButton::Button19),
            19i32 => Some(MouseButton::Button20),
            _ => None,
        };
        proof {
            if let Some(b) = r {
                assert(native_button_code(b) == code);
                assert(button_for_code(code) == b);
            }
        }
        r
    }
}

} // verus!
