use search_rs::events::{
    EventHandler, Key, KeyAction, KeyInput, KeyModifier, MouseAction, MouseInput, MouseKind,
};

fn test_handler() -> EventHandler {
    EventHandler::new().unwrap()
}

fn assert_key_action(key: Key, mods: KeyModifier, expected: KeyAction) {
    let handler = test_handler();
    let event = KeyInput { key, mods };
    assert_eq!(handler.handle_key_event(event), expected);
}

fn create_mouse_event(kind: MouseKind, column: u16, row: u16) -> MouseInput {
    MouseInput { kind, column, row }
}

#[test]
fn test_key_mappings_data_driven() {
    let test_cases = [
        (Key::Esc, KeyModifier::NoMods, KeyAction::Quit),
        (Key::Char('c'), KeyModifier::Ctrl, KeyAction::Quit),
        (Key::Up, KeyModifier::NoMods, KeyAction::MovePrevious),
        (Key::Down, KeyModifier::NoMods, KeyAction::MoveNext),
        (Key::Enter, KeyModifier::NoMods, KeyAction::OpenFile),
        (Key::Tab, KeyModifier::NoMods, KeyAction::CycleFocus),
        (Key::Char('r'), KeyModifier::Ctrl, KeyAction::RefreshSearch),
        (Key::Char('/'), KeyModifier::NoMods, KeyAction::FocusSearch),
        (Key::Char('f'), KeyModifier::Ctrl, KeyAction::FocusSearch),
        (Key::Char('a'), KeyModifier::NoMods, KeyAction::InputChar('a')),
        (Key::Backspace, KeyModifier::NoMods, KeyAction::DeleteChar),
        (Key::Char('j'), KeyModifier::NoMods, KeyAction::InputChar('j')),
        (Key::Char('k'), KeyModifier::NoMods, KeyAction::InputChar('k')),
        (Key::Other, KeyModifier::NoMods, KeyAction::NoAction),
        (Key::Char('a'), KeyModifier::OtherMods, KeyAction::NoAction),
    ];

    for (key, mods, expected) in test_cases {
        assert_key_action(key, mods, expected);
    }

    let chars = ['a', 'Z', '1', '@', ' ', '-', '_'];
    for c in chars {
        assert_key_action(Key::Char(c), KeyModifier::NoMods, KeyAction::InputChar(c));
    }
}

#[test]
fn test_key_action_debug_trait() {
    let cases = [
        (KeyAction::Quit, "Quit"),
        (KeyAction::MovePrevious, "MovePrevious"),
        (KeyAction::MoveNext, "MoveNext"),
        (KeyAction::OpenFile, "OpenFile"),
        (KeyAction::CycleFocus, "CycleFocus"),
        (KeyAction::RefreshSearch, "RefreshSearch"),
        (KeyAction::FocusSearch, "FocusSearch"),
        (KeyAction::DeleteChar, "DeleteChar"),
        (KeyAction::NoAction, "NoAction"),
    ];

    for (action, expected) in cases {
        assert_eq!(format!("{:?}", action), expected);
    }

    assert_eq!(format!("{:?}", KeyAction::InputChar('a')), "InputChar('a')");
}

#[test]
fn test_key_action_partial_eq_trait() {
    // Test InputChar equality
    assert_eq!(KeyAction::InputChar('a'), KeyAction::InputChar('a'));
    assert_eq!(KeyAction::InputChar('z'), KeyAction::InputChar('z'));

    // Test inequalities between different variants
    assert_ne!(KeyAction::Quit, KeyAction::MovePrevious);
    assert_ne!(KeyAction::OpenFile, KeyAction::NoAction);
    assert_ne!(KeyAction::RefreshSearch, KeyAction::FocusSearch);

    // Test InputChar inequality
    assert_ne!(KeyAction::InputChar('a'), KeyAction::InputChar('b'));
    assert_ne!(KeyAction::InputChar('a'), KeyAction::Quit);
}

#[test]
fn test_mouse_event_handler() {
    let handler = test_handler();

    // Positive case: Left button down
    let event = create_mouse_event(MouseKind::LeftDown, 1, 2);
    assert_eq!(handler.handle_mouse_event(event), MouseAction::ClickAt(1, 2));

    // Negative case: everything that is not a left button press
    let event = create_mouse_event(MouseKind::Other, 0, 0);
    assert_eq!(handler.handle_mouse_event(event), MouseAction::NoAction);
}

#[test]
fn test_mouse_action_partial_eq_trait() {
    // Test NoAction equality
    assert_eq!(MouseAction::NoAction, MouseAction::NoAction);

    assert_eq!(
        MouseAction::ClickAt(1u16, 20u16),
        MouseAction::ClickAt(1u16, 20u16)
    );

    // Test inequality between NoAction and ClickAt
    assert_ne!(MouseAction::NoAction, MouseAction::ClickAt(1, 1));

    // Test inequality between different ClickAt
    assert_ne!(MouseAction::ClickAt(1, 1), MouseAction::ClickAt(2, 2));
}
