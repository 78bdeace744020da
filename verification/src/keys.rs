use vstd::prelude::*;

verus! {

/// A key of the emulated machine's keyboard, as the input device understands it.
#[derive(Clone, Copy, Debug, PartialEq, Eq, Structural, Hash)]
pub enum Key {
    Key0,
    Key1,
    Key2,
    Key3,
    Key4,
    Key5,
    Key6,
    Key7,
    Key8,
    Key9,

    A,
    B,
    C,
    D,
    E,
    F,
    G,
    H,
    I,
    J,
    K,
    L,
    M,
    N,
    O,
    P,
    Q,
    R,
    S,
    T,
    U,
    V,
    W,
    X,
    Y,
    Z,

    F1,
    F2,
    F3,
    F4,
    F5,
    F6,
    F7,
    F8,
    F9,
    F10,
    F11,
    F12,
    F13,
    F14,
    F15,

    Down,
    Left,
    Right,
    Up,
    Apostrophe,
    Backquote,

    Backslash,
    Comma,
    Equal,
    LeftBracket,
    Minus,
    Period,
    RightBracket,
    Semicolon,

    Slash,
    Backspace,
    Delete,
    End,
    Enter,

    Escape,

    Home,
    Insert,
    Menu,

    PageDown,
    PageUp,

    Pause,
    Space,
    Tab,
    NumLock,
    CapsLock,
    ScrollLock,
    LeftShift,
    RightShift,
    LeftCtrl,
    RightCtrl,

    NumPad0,
    NumPad1,
    NumPad2,
    NumPad3,
    NumPad4,
    NumPad5,
    NumPad6,
    NumPad7,
    NumPad8,
    NumPad9,
    NumPadDot,
    NumPadSlash,
    NumPadAsterisk,
    NumPadMinus,
    NumPadPlus,
    NumPadEnter,

    LeftAlt,
    RightAlt,

    LeftSuper,
    RightSuper,

    /// A key the emulated keyboard has no name for.
    Unknown,
}

/// A key as the host's windowing layer reports it.
#[derive(Clone, Copy, Debug, PartialEq, Eq, Structural, Hash)]
pub enum HostKey {
    Key0,
    Key1,
    Key2,
    Key3,
    Key4,
    Key5,
    Key6,
    Key7,
    Key8,
    Key9,

    A,
    B,
    C,
    D,
    E,
    F,
    G,
    H,
    I,
    J,
    K,
    L,
    M,
    N,
    O,
    P,
    Q,
    R,
    S,
    T,
    U,
    V,
    W,
    X,
    Y,
    Z,

    F1,
    F2,
    F3,
    F4,
    F5,
    F6,
    F7,
    F8,
    F9,
    F10,
    F11,
    F12,
    F13,
    F14,
    F15,

    Down,
    Left,
    Right,
    Up,
    Apostrophe,
    Backquote,

    Backslash,
    Comma,
    Equal,
    LeftBracket,
    Minus,
    Period,
    RightBracket,
    Semicolon,

    Slash,
    Backspace,
    Delete,
    End,
    Enter,

    Escape,

    Home,
    Insert,
    Menu,

    PageDown,
    PageUp,

    Pause,
    Space,
    Tab,
    NumLock,
    CapsLock,
    ScrollLock,
    LeftShift,
    RightShift,
    LeftCtrl,
    RightCtrl,

    NumPad0,
    NumPad1,
    NumPad2,
    NumPad3,
    NumPad4,
    NumPad5,
    NumPad6,
    NumPad7,
    NumPad8,
    NumPad9,
    NumPadDot,
    NumPadSlash,
    NumPadAsterisk,
    NumPadMinus,
    NumPadPlus,
    NumPadEnter,

    LeftAlt,
    RightAlt,

    LeftSuper,
    RightSuper,

    /// A key the host could not identify.
    Unknown,
    /// The host's end-of-list marker; it names no physical key.
    Count,
}

/// The emulated key that a host key stands for.
///
/// Every named host key stands for the emulated key of the same name. The two
/// host values that name no key, `Unknown` and `Count`, both stand for
/// `Key::Unknown`.
pub open spec fn logical_key(host: HostKey) -> Key {
    match host {
        HostKey::Key0 => Key::Key0,
        HostKey::Key1 => Key::Key1,
        HostKey::Key2 => Key::Key2,
        HostKey::Key3 => Key::Key3,
        HostKey::Key4 => Key::Key4,
        HostKey::Key5 => Key::Key5,
        HostKey::Key6 => Key::Key6,
        HostKey::Key7 => Key::Key7,
        HostKey::Key8 => Key::Key8,
        HostKey::Key9 => Key::Key9,

        HostKey::A => Key::A,
        HostKey::B => Key::B,
        HostKey::C => Key::C,
        HostKey::D => Key::D,
        HostKey::E => Key::E,
        HostKey::F => Key::F,
        HostKey::G => Key::G,
        HostKey::H => Key::H,
        HostKey::I => Key::I,
        HostKey::J => Key::J,
        HostKey::K => Key::K,
        HostKey::L => Key::L,
        HostKey::M => Key::M,
        HostKey::N => Key::N,
        HostKey::O => Key::O,
        HostKey::P => Key::P,
        HostKey::Q => Key::Q,
        HostKey::R => Key::R,
        HostKey::S => Key::S,
        HostKey::T => Key::T,
        HostKey::U => Key::U,
        HostKey::V => Key::V,
        HostKey::W => Key::W,
        HostKey::X => Key::X,
        HostKey::Y => Key::Y,
        HostKey::Z => Key::Z,

        HostKey::F1 => Key::F1,
        HostKey::F2 => Key::F2,
        HostKey::F3 => Key::F3,
        HostKey::F4 => Key::F4,
        HostKey::F5 => Key::F5,
        HostKey::F6 => Key::F6,
        HostKey::F7 => Key::F7,
        HostKey::F8 => Key::F8,
        HostKey::F9 => Key::F9,
        HostKey::F10 => Key::F10,
        HostKey::F11 => Key::F11,
        HostKey::F12 => Key::F12,
        HostKey::F13 => Key::F13,
        HostKey::F14 => Key::F14,
        HostKey::F15 => Key::F15,

        HostKey::Down => Key::Down,
        HostKey::Left => Key::Left,
        HostKey::Right => Key::Right,
        HostKey::Up => Key::Up,
        HostKey::Apostrophe => Key::Apostrophe,
        HostKey::Backquote => Key::Backquote,

        HostKey::Backslash => Key::Backslash,
        HostKey::Comma => Key::Comma,
        HostKey::Equal => Key::Equal,
        HostKey::LeftBracket => Key::LeftBracket,
        HostKey::Minus => Key::Minus,
        HostKey::Period => Key::Period,
        HostKey::RightBracket => Key::RightBracket,
        HostKey::Semicolon => Key::Semicolon,

        HostKey::Slash => Key::Slash,
        HostKey::Backspace => Key::Backspace,
        HostKey::Delete => Key::Delete,
        HostKey::End => Key::End,
        HostKey::Enter => Key::Enter,

        HostKey::Escape => Key::Escape,

        HostKey::Home => Key::Home,
        HostKey::Insert => Key::Insert,
        HostKey::Menu => Key::Menu,

        HostKey::PageDown => Key::PageDown,
        HostKey::PageUp => Key::PageUp,

        HostKey::Pause => Key::Pause,
        HostKey::Space => Key::Space,
        HostKey::Tab => Key::Tab,
        HostKey::NumLock => Key::NumLock,
        HostKey::CapsLock => Key::CapsLock,
        HostKey::ScrollLock => Key::ScrollLock,
        HostKey::LeftShift => Key::LeftShift,
        HostKey::RightShift => Key::RightShift,
        HostKey::LeftCtrl => Key::LeftCtrl,
        HostKey::RightCtrl => Key::RightCtrl,

        HostKey::NumPad0 => Key::NumPad0,
        HostKey::NumPad1 => Key::NumPad1,
        HostKey::NumPad2 => Key::NumPad2,
        HostKey::NumPad3 => Key::NumPad3,
        HostKey::NumPad4 => Key::NumPad4,
        HostKey::NumPad5 => Key::NumPad5,
        HostKey::NumPad6 => Key::NumPad6,
        HostKey::NumPad7 => Key::NumPad7,
        HostKey::NumPad8 => Key::NumPad8,
        HostKey::NumPad9 => Key::NumPad9,
        HostKey::NumPadDot => Key::NumPadDot,
        HostKey::NumPadSlash => Key::NumPadSlash,
        HostKey::NumPadAsterisk => Key::NumPadAsterisk,
        HostKey::NumPadMinus => Key::NumPadMinus,
        HostKey::NumPadPlus => Key::NumPadPlus,
        HostKey::NumPadEnter => Key::NumPadEnter,

        HostKey::LeftAlt => Key::LeftAlt,
        HostKey::RightAlt => Key::RightAlt,

        HostKey::LeftSuper => Key::LeftSuper,
        HostKey::RightSuper => Key::RightSuper,

        HostKey::Unknown => Key::Unknown,
        HostKey::Count => Key::Unknown,
    }
}

/// Whether a host value names a physical key.
pub open spec fn names_a_key(host: HostKey) -> bool {
    host != HostKey::Unknown && host != HostKey::Count
}

/// Translates a host key into the emulated machine's key.
pub fn convert_key(key: HostKey) -> (converted: Key)
    ensures
        converted == logical_key(key),
        converted == Key::Unknown <==> !names_a_key(key),
{
    match key {
        HostKey::Key0 => Key::Key0,
        HostKey::Key1 => Key::Key1,
        HostKey::Key2 => Key::Key2,
        HostKey::Key3 => Key::Key3,
        HostKey::Key4 => Key::Key4,
        HostKey::Key5 => Key::Key5,
        HostKey::Key6 => Key::Key6,
        HostKey::Key7 => Key::Key7,
        HostKey::Key8 => Key::Key8,
        HostKey::Key9 => Key::Key9,

        HostKey::A => Key::A,
        HostKey::B => Key::B,
        HostKey::C => Key::C,
        HostKey::D => Key::D,
        HostKey::E => Key::E,
        HostKey::F => Key::F,
        HostKey::G => Key::G,
        HostKey::H => Key::H,
        HostKey::I => Key::I,
        HostKey::J => Key::J,
        HostKey::K => Key::K,
        HostKey::L => Key::L,
        HostKey::M => Key::M,
        HostKey::N => Key::N,
        HostKey::O => Key::O,
        HostKey::P => Key::P,
        HostKey::Q => Key::Q,
        HostKey::R => Key::R,
        HostKey::S => Key::S,
        HostKey::T => Key::T,
        HostKey::U => Key::U,
        HostKey::V => Key::V,
        HostKey::W => Key::W,
        HostKey::X => Key::X,
        HostKey::Y => Key::Y,
        HostKey::Z => Key::Z,

        HostKey::F1 => Key::F1,
        HostKey::F2 => Key::F2,
        HostKey::F3 => Key::F3,
        HostKey::F4 => Key::F4,
        HostKey::F5 => Key::F5,
        HostKey::F6 => Key::F6,
        HostKey::F7 => Key::F7,
        HostKey::F8 => Key::F8,
        HostKey::F9 => Key::F9,
        HostKey::F10 => Key::F10,
        HostKey::F11 => Key::F11,
        HostKey::F12 => Key::F12,
        HostKey::F13 => Key::F13,
        HostKey::F14 => Key::F14,
        HostKey::F15 => Key::F15,

        HostKey::Down => Key::Down,
        HostKey::Left => Key::Left,
        HostKey::Right => Key::Right,
        HostKey::Up => Key::Up,
        HostKey::Apostrophe => Key::Apostrophe,
        HostKey::Backquote => Key::Backquote,

        HostKey::Backslash => Key::Backslash,
        HostKey::Comma => Key::Comma,
        HostKey::Equal => Key::Equal,
        HostKey::LeftBracket => Key::LeftBracket,
        HostKey::Minus => Key::Minus,
        HostKey::Period => Key::Period,
        HostKey::RightBracket => Key::RightBracket,
        HostKey::Semicolon => Key::Semicolon,

        HostKey::Slash => Key::Slash,
        HostKey::Backspace => Key::Backspace,
        HostKey::Delete => Key::Delete,
        HostKey::End => Key::End,
        HostKey::Enter => Key::Enter,

        HostKey::Escape => Key::Escape,

        HostKey::Home => Key::Home,
        HostKey::Insert => Key::Insert,
        HostKey::Menu => Key::Menu,

        HostKey::PageDown => Key::PageDown,
        HostKey::PageUp => Key::PageUp,

        HostKey::Pause => Key::Pause,
        HostKey::Space => Key::Space,
        HostKey::Tab => Key::Tab,
        HostKey::NumLock => Key::NumLock,
        HostKey::CapsLock => Key::CapsLock,
        HostKey::ScrollLock => Key::ScrollLock,
        HostKey::LeftShift => Key::LeftShift,
        HostKey::RightShift => Key::RightShift,
        HostKey::LeftCtrl => Key::LeftCtrl,
        HostKey::RightCtrl => Key::RightCtrl,

        HostKey::NumPad0 => Key::NumPad0,
        HostKey::NumPad1 => Key::NumPad1,
        HostKey::NumPad2 => Key::NumPad2,
        HostKey::NumPad3 => Key::NumPad3,
        HostKey::NumPad4 => Key::NumPad4,
        HostKey::NumPad5 => Key::NumPad5,
        HostKey::NumPad6 => Key::NumPad6,
        HostKey::NumPad7 => Key::NumPad7,
        HostKey::NumPad8 => Key::NumPad8,
        HostKey::NumPad9 => Key::NumPad9,
        HostKey::NumPadDot => Key::NumPadDot,
        HostKey::NumPadSlash => Key::NumPadSlash,
        HostKey::NumPadAsterisk => Key::NumPadAsterisk,
        HostKey::NumPadMinus => Key::NumPadMinus,
        HostKey::NumPadPlus => Key::NumPadPlus,
        HostKey::NumPadEnter => Key::NumPadEnter,

        HostKey::LeftAlt => Key::LeftAlt,
        HostKey::RightAlt => Key::RightAlt,

        HostKey::LeftSuper => Key::LeftSuper,
        HostKey::RightSuper => Key::RightSuper,

        HostKey::Unknown => Key::Unknown,
        HostKey::Count => Key::Unknown,
    }
}

/// Translation never merges two physical keys: host keys that stand for the
/// same emulated key are the same host key, unless neither names a key.
pub proof fn lemma_convert_key_injective(a: HostKey, b: HostKey)
    requires
        logical_key(a) == logical_key(b),
    ensures
        a == b || (!names_a_key(a) && !names_a_key(b)),
{
}

} // verus!
