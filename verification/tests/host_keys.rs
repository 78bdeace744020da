use emu_host::keys::HostKey;

fn host_key_pairs() -> Vec<(minifb::Key, HostKey)> {
    vec![
        (minifb::Key::Key0, HostKey::Key0),
        (minifb::Key::Key1, HostKey::Key1),
        (minifb::Key::Key2, HostKey::Key2),
        (minifb::Key::Key3, HostKey::Key3),
        (minifb::Key::Key4, HostKey::Key4),
        (minifb::Key::Key5, HostKey::Key5),
        (minifb::Key::Key6, HostKey::Key6),
        (minifb::Key::Key7, HostKey::Key7),
        (minifb::Key::Key8, HostKey::Key8),
        (minifb::Key::Key9, HostKey::Key9),
        (minifb::Key::A, HostKey::A),
        (minifb::Key::B, HostKey::B),
        (minifb::Key::C, HostKey::C),
        (minifb::Key::D, HostKey::D),
        (minifb::Key::E, HostKey::E),
        (minifb::Key::F, HostKey::F),
        (minifb::Key::G, HostKey::G),
        (minifb::Key::H, HostKey::H),
        (minifb::Key::I, HostKey::I),
        (minifb::Key::J, HostKey::J),
        (minifb::Key::K, HostKey::K),
        (minifb::Key::L, HostKey::L),
        (minifb::Key::M, HostKey::M),
        (minifb::Key::N, HostKey::N),
        (minifb::Key::O, HostKey::O),
        (minifb::Key::P, HostKey::P),
        (minifb::Key::Q, HostKey::Q),
        (minifb::Key::R, HostKey::R),
        (minifb::Key::S, HostKey::S),
        (minifb::Key::T, HostKey::T),
        (minifb::Key::U, HostKey::U),
        (minifb::Key::V, HostKey::V),
        (minifb::Key::W, HostKey::W),
        (minifb::Key::X, HostKey::X),
        (minifb::Key::Y, HostKey::Y),
        (minifb::Key::Z, HostKey::Z),
        (minifb::Key::F1, HostKey::F1),
        (minifb::Key::F2, HostKey::F2),
        (minifb::Key::F3, HostKey::F3),
        (minifb::Key::F4, HostKey::F4),
        (minifb::Key::F5, HostKey::F5),
        (minifb::Key::F6, HostKey::F6),
        (minifb::Key::F7, HostKey::F7),
        (minifb::Key::F8, HostKey::F8),
        (minifb::Key::F9, HostKey::F9),
        (minifb::Key::F10, HostKey::F10),
        (minifb::Key::F11, HostKey::F11),
        (minifb::Key::F12, HostKey::F12),
        (minifb::Key::F13, HostKey::F13),
        (minifb::Key::F14, HostKey::F14),
        (minifb::Key::F15, HostKey::F15),
        (minifb::Key::Down, HostKey::Down),
        (minifb::Key::Left, HostKey::Left),
        (minifb::Key::Right, HostKey::Right),
        (minifb::Key::Up, HostKey::Up),
        (minifb::Key::Apostrophe, HostKey::Apostrophe),
        (minifb::Key::Backquote, HostKey::Backquote),
        (minifb::Key::Backslash, HostKey::Backslash),
        (minifb::Key::Comma, HostKey::Comma),
        (minifb::Key::Equal, HostKey::Equal),
        (minifb::Key::LeftBracket, HostKey::LeftBracket),
        (minifb::Key::Minus, HostKey::Minus),
        (minifb::Key::Period, HostKey::Period),
        (minifb::Key::RightBracket, HostKey::RightBracket),
        (minifb::Key::Semicolon, HostKey::Semicolon),
        (minifb::Key::Slash, HostKey::Slash),
        (minifb::Key::Backspace, HostKey::Backspace),
        (minifb::Key::Delete, HostKey::Delete),
        (minifb::Key::End, HostKey::End),
        (minifb::Key::Enter, HostKey::Enter),
        (minifb::Key::Escape, HostKey::Escape),
        (minifb::Key::Home, HostKey::Home),
        (minifb::Key::Insert, HostKey::Insert),
        (minifb::Key::Menu, HostKey::Menu),
        (minifb::Key::PageDown, HostKey::PageDown),
        (minifb::Key::PageUp, HostKey::PageUp),
        (minifb::Key::Pause, HostKey::Pause),
        (minifb::Key::Space, HostKey::Space),
        (minifb::Key::Tab, HostKey::Tab),
        (minifb::Key::NumLock, HostKey::NumLock),
        (minifb::Key::CapsLock, HostKey::CapsLock),
        (minifb::Key::ScrollLock, HostKey::ScrollLock),
        (minifb::Key::LeftShift, HostKey::LeftShift),
        (minifb::Key::RightShift, HostKey::RightShift),
        (minifb::Key::LeftCtrl, HostKey::LeftCtrl),
        (minifb::Key::RightCtrl, HostKey::RightCtrl),
        (minifb::Key::NumPad0, HostKey::NumPad0),
        (minifb::Key::NumPad1, HostKey::NumPad1),
        (minifb::Key::NumPad2, HostKey::NumPad2),
        (minifb::Key::NumPad3, HostKey::NumPad3),
        (minifb::Key::NumPad4, HostKey::NumPad4),
        (minifb::Key::NumPad5, HostKey::NumPad5),
        (minifb::Key::NumPad6, HostKey::NumPad6),
        (minifb::Key::NumPad7, HostKey::NumPad7),
        (minifb::Key::NumPad8, HostKey::NumPad8),
        (minifb::Key::NumPad9, HostKey::NumPad9),
        (minifb::Key::NumPadDot, HostKey::NumPadDot),
        (minifb::Key::NumPadSlash, HostKey::NumPadSlash),
        (minifb::Key::NumPadAsterisk, HostKey::NumPadAsterisk),
        (minifb::Key::NumPadMinus, HostKey::NumPadMinus),
        (minifb::Key::NumPadPlus, HostKey::NumPadPlus),
        (minifb::Key::NumPadEnter, HostKey::NumPadEnter),
        (minifb::Key::LeftAlt, HostKey::LeftAlt),
        (minifb::Key::RightAlt, HostKey::RightAlt),
        (minifb::Key::LeftSuper, HostKey::LeftSuper),
        (minifb::Key::RightSuper, HostKey::RightSuper),
        (minifb::Key::Unknown, HostKey::Unknown),
        (minifb::Key::Count, HostKey::Count),
    ]
}

#[test]
fn host_keys_carry_the_names_of_the_window_keys() {
    for (window_key, host_key) in host_key_pairs() {
        assert_eq!(format!("{:?}", window_key), format!("{:?}", host_key));
    }
}

#[test]
fn host_keys_cover_every_window_key() {
    let pairs = host_key_pairs();
    assert_eq!(pairs.len(), minifb::Key::Count as usize + 1);
    for (position, (window_key, _)) in pairs.iter().enumerate() {
        assert_eq!(*window_key as usize, position);
    }
}
