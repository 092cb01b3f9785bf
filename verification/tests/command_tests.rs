use hecto::{
    Direction, EditorCommand, InputEvent, Key, KeyPress, Modifiers, Size, Unsupported,
};

const NONE: Modifiers = Modifiers { shift: false, control: false, alt: false, other: false };
const CONTROL: Modifiers = Modifiers { shift: false, control: true, alt: false, other: false };

fn press(key: Key, modifiers: Modifiers) -> InputEvent {
    InputEvent::Key(KeyPress { key, modifiers, pressed: true })
}

#[test]
fn control_q_quits() {
    assert_eq!(EditorCommand::try_from(press(Key::Char('q'), CONTROL)), Ok(EditorCommand::Quit));
}

#[test]
fn q_alone_or_with_more_than_control_is_no_command() {
    assert_eq!(EditorCommand::try_from(press(Key::Char('q'), NONE)), Err(Unsupported::KeyCode));
    let control_shift = Modifiers { shift: true, ..CONTROL };
    assert_eq!(
        EditorCommand::try_from(press(Key::Char('q'), control_shift)),
        Err(Unsupported::KeyCode)
    );
    let control_alt = Modifiers { alt: true, ..CONTROL };
    assert_eq!(
        EditorCommand::try_from(press(Key::Char('q'), control_alt)),
        Err(Unsupported::KeyCode)
    );
    let control_other = Modifiers { other: true, ..CONTROL };
    assert_eq!(
        EditorCommand::try_from(press(Key::Char('q'), control_other)),
        Err(Unsupported::KeyCode)
    );
    assert_eq!(EditorCommand::try_from(press(Key::Char('Q'), CONTROL)), Err(Unsupported::KeyCode));
    assert_eq!(EditorCommand::try_from(press(Key::Char('x'), CONTROL)), Err(Unsupported::KeyCode));
}

#[test]
fn only_control_is_control_and_nothing_else() {
    assert!(CONTROL.is_only_control());
    assert!(!NONE.is_only_control());
    assert!(!Modifiers { shift: true, ..CONTROL }.is_only_control());
    assert!(!Modifiers { alt: true, ..CONTROL }.is_only_control());
    assert!(!Modifiers { other: true, ..CONTROL }.is_only_control());
}

#[test]
fn navigation_keys_move() {
    let keys = [
        (Key::Up, Direction::Up),
        (Key::Down, Direction::Down),
        (Key::Left, Direction::Left),
        (Key::Right, Direction::Right),
        (Key::PageDown, Direction::PageDown),
        (Key::PageUp, Direction::PageUp),
        (Key::End, Direction::End),
        (Key::Home, Direction::Home),
    ];
    for (key, direction) in keys {
        assert_eq!(key.direction(), Some(direction));
        assert_eq!(EditorCommand::try_from(press(key, NONE)), Ok(EditorCommand::Move(direction)));
        // Whatever is held down with them.
        assert_eq!(
            EditorCommand::try_from(press(key, CONTROL)),
            Ok(EditorCommand::Move(direction))
        );
        // And whether the key went down or up.
        let released = InputEvent::Key(KeyPress { key, modifiers: NONE, pressed: false });
        assert_eq!(EditorCommand::try_from(released), Ok(EditorCommand::Move(direction)));
    }
}

#[test]
fn other_keys_are_no_command() {
    assert_eq!(Key::Other.direction(), None);
    assert_eq!(Key::Char('a').direction(), None);
    assert_eq!(EditorCommand::try_from(press(Key::Other, NONE)), Err(Unsupported::KeyCode));
    assert_eq!(EditorCommand::try_from(press(Key::Char('a'), NONE)), Err(Unsupported::KeyCode));
}

#[test]
fn resize_event_resizes() {
    assert_eq!(
        EditorCommand::try_from(InputEvent::Resize(80, 24)),
        Ok(EditorCommand::Resize(Size { width: 80, height: 24 }))
    );
    assert_eq!(
        EditorCommand::try_from(InputEvent::Resize(0, u16::MAX)),
        Ok(EditorCommand::Resize(Size { width: 0, height: 65535 }))
    );
}

#[test]
fn other_events_are_no_command() {
    assert_eq!(EditorCommand::try_from(InputEvent::Other), Err(Unsupported::Event));
}
