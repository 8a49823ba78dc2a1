use reson::input::{
    after_read, after_send, classify, CaptureStep, InputMessage, KeyCode, KeyEvent, KeyEventKind,
    MouseEvent, MouseEventKind, MouseScrollDirection, TerminalEvent, ALT, CONTROL, SHIFT,
};

fn press(code: KeyCode, modifiers: u8) -> TerminalEvent {
    TerminalEvent::Key(KeyEvent { code, modifiers, kind: KeyEventKind::Press })
}

fn pointer(kind: MouseEventKind, column: u16, row: u16) -> TerminalEvent {
    TerminalEvent::Mouse(MouseEvent { kind, column, row })
}

#[test]
fn q_and_escape_ask_to_quit() {
    assert_eq!(classify(&press(KeyCode::Char('q'), 0)), Some(InputMessage::Quit));
    assert_eq!(classify(&press(KeyCode::Esc, 0)), Some(InputMessage::Quit));
    assert_eq!(classify(&press(KeyCode::Char('q'), SHIFT)), Some(InputMessage::Quit));
    assert_eq!(classify(&press(KeyCode::Esc, CONTROL | ALT)), Some(InputMessage::Quit));
}

#[test]
fn control_c_asks_to_quit_and_a_plain_c_is_a_key() {
    assert_eq!(classify(&press(KeyCode::Char('c'), CONTROL)), Some(InputMessage::Quit));
    assert_eq!(
        classify(&press(KeyCode::Char('c'), 0)),
        Some(InputMessage::KeyPress(KeyCode::Char('c')))
    );
    assert_eq!(
        classify(&press(KeyCode::Char('c'), CONTROL | SHIFT)),
        Some(InputMessage::KeyPress(KeyCode::Char('c')))
    );
    assert_eq!(
        classify(&press(KeyCode::Char('c'), ALT)),
        Some(InputMessage::KeyPress(KeyCode::Char('c')))
    );
}

#[test]
fn every_other_key_is_passed_on() {
    let codes = [
        KeyCode::Char('j'),
        KeyCode::Char('1'),
        KeyCode::Char('Q'),
        KeyCode::Tab,
        KeyCode::BackTab,
        KeyCode::Left,
        KeyCode::Right,
        KeyCode::Up,
        KeyCode::Down,
        KeyCode::Enter,
        KeyCode::F(5),
        KeyCode::Other,
    ];
    for code in codes {
        assert_eq!(classify(&press(code, 0)), Some(InputMessage::KeyPress(code)));
        assert_eq!(classify(&press(code, CONTROL)), Some(InputMessage::KeyPress(code)));
    }
}

#[test]
fn a_key_that_is_held_or_comes_up_stands_for_no_message() {
    for kind in [KeyEventKind::Repeat, KeyEventKind::Release] {
        for code in [KeyCode::Char('q'), KeyCode::Esc, KeyCode::Char('j'), KeyCode::Tab] {
            let event = TerminalEvent::Key(KeyEvent { code, modifiers: 0, kind });
            assert_eq!(classify(&event), None);
        }
    }
}

#[test]
fn the_wheel_scrolls_in_its_direction() {
    assert_eq!(
        classify(&pointer(MouseEventKind::ScrollDown, 3, 4)),
        Some(InputMessage::MouseScroll { direction: MouseScrollDirection::Down })
    );
    assert_eq!(
        classify(&pointer(MouseEventKind::ScrollUp, 3, 4)),
        Some(InputMessage::MouseScroll { direction: MouseScrollDirection::Up })
    );
    assert_eq!(
        classify(&pointer(MouseEventKind::ScrollLeft, 3, 4)),
        Some(InputMessage::MouseScroll { direction: MouseScrollDirection::Left })
    );
    assert_eq!(
        classify(&pointer(MouseEventKind::ScrollRight, 3, 4)),
        Some(InputMessage::MouseScroll { direction: MouseScrollDirection::Right })
    );
}

#[test]
fn a_move_of_the_pointer_reports_column_and_row() {
    assert_eq!(
        classify(&pointer(MouseEventKind::Moved, 17, 5)),
        Some(InputMessage::MouseMoved { position: (17, 5) })
    );
    assert_eq!(
        classify(&pointer(MouseEventKind::Moved, 0, 65535)),
        Some(InputMessage::MouseMoved { position: (0, 65535) })
    );
}

#[test]
fn other_events_stand_for_no_message() {
    assert_eq!(classify(&pointer(MouseEventKind::Other, 1, 1)), None);
    assert_eq!(classify(&TerminalEvent::Other), None);
}

#[test]
fn capture_sends_what_stands_for_a_message_and_waits_otherwise() {
    assert_eq!(
        after_read(Some(press(KeyCode::Char('q'), 0))),
        CaptureStep::Send(InputMessage::Quit)
    );
    assert_eq!(
        after_read(Some(press(KeyCode::Tab, 0))),
        CaptureStep::Send(InputMessage::KeyPress(KeyCode::Tab))
    );
    assert_eq!(after_read(Some(TerminalEvent::Other)), CaptureStep::Wait);
    assert_eq!(after_read(Some(pointer(MouseEventKind::Other, 0, 0))), CaptureStep::Wait);
    assert_eq!(after_read(None), CaptureStep::Wait);
}

#[test]
fn capture_ends_when_the_dispatcher_is_gone() {
    assert_eq!(after_send(true), CaptureStep::Wait);
    assert_eq!(after_send(false), CaptureStep::Stop);
}
