//! Input capture: what the terminal reports is sorted into the messages that
//! the dispatcher acts on. Capture only produces messages; it never touches
//! the state of the application.

use vstd::prelude::*;

verus! {

/// A key, as the terminal names it.
#[derive(Clone, Copy, Debug, PartialEq, Eq, Structural)]
pub enum KeyCode {
    Backspace,
    Enter,
    Left,
    Right,
    Up,
    Down,
    Home,
    End,
    PageUp,
    PageDown,
    Tab,
    BackTab,
    Delete,
    Insert,
    /// A function key, by its number.
    F(u8),
    /// A key that writes a character.
    Char(char),
    Null,
    Esc,
    /// Any other key.
    Other,
}

/// Whether a key went down, is held, or came up.
#[derive(Clone, Copy, Debug, PartialEq, Eq, Structural)]
pub enum KeyEventKind {
    Press,
    Repeat,
    Release,
}

/// The modifier keys that are held, one bit for each.
pub const SHIFT: u8 = 0b0000_0001;

pub const CONTROL: u8 = 0b0000_0010;

pub const ALT: u8 = 0b0000_0100;

/// What the terminal reports of a key.
#[derive(Clone, Copy, Debug, PartialEq, Eq, Structural)]
pub struct KeyEvent {
    pub code: KeyCode,
    /// The bits of the modifier keys that are held.
    pub modifiers: u8,
    pub kind: KeyEventKind,
}

/// What the pointer did.
#[derive(Clone, Copy, Debug, PartialEq, Eq, Structural)]
pub enum MouseEventKind {
    ScrollDown,
    ScrollUp,
    ScrollLeft,
    ScrollRight,
    /// The pointer moved with no button held.
    Moved,
    /// A button went down or came up, or the pointer was dragged.
    Other,
}

/// What the terminal reports of the pointer.
#[derive(Clone, Copy, Debug, PartialEq, Eq, Structural)]
pub struct MouseEvent {
    pub kind: MouseEventKind,
    pub column: u16,
    pub row: u16,
}

/// What the terminal reports.
#[derive(Clone, Copy, Debug, PartialEq, Eq, Structural)]
pub enum TerminalEvent {
    Key(KeyEvent),
    Mouse(MouseEvent),
    /// A change of focus or size, or pasted text.
    Other,
}

/// The direction in which the wheel was turned.
#[derive(Clone, Copy, Debug, PartialEq, Eq, Structural)]
pub enum MouseScrollDirection {
    Up,
    Down,
    Left,
    Right,
}

/// A message from input capture to the dispatcher.
#[derive(Clone, Copy, Debug, PartialEq, Eq)]
pub enum InputMessage {
    KeyPress(KeyCode),
    MouseScroll { direction: MouseScrollDirection },
    MouseMoved { position: (u16, u16) },
    Quit,
}

/// The message that a key stands for: `q`, `Esc`, and `c` with the control
/// key and no other modifier ask to quit, every other key is passed on; a
/// key that is held or comes up stands for none.
pub open spec fn key_message(key: KeyEvent) -> Option<InputMessage> {
    if key.kind != KeyEventKind::Press {
        None
    } else if key.code == KeyCode::Char('q') || key.code == KeyCode::Esc {
        Some(InputMessage::Quit)
    } else if key.code == KeyCode::Char('c') && key.modifiers == CONTROL {
        Some(InputMessage::Quit)
    } else {
        Some(InputMessage::KeyPress(key.code))
    }
}

/// The message that the pointer stands for: a turn of the wheel scrolls in
/// its direction, a move reports where the pointer is, anything else stands
/// for none.
pub open spec fn mouse_message(mouse: MouseEvent) -> Option<InputMessage> {
    match mouse.kind {
        MouseEventKind::ScrollDown => Some(
            InputMessage::MouseScroll { direction: MouseScrollDirection::Down },
        ),
        MouseEventKind::ScrollUp => Some(
            InputMessage::MouseScroll { direction: MouseScrollDirection::Up },
        ),
        MouseEventKind::ScrollLeft => Some(
            InputMessage::MouseScroll { direction: MouseScrollDirection::Left },
        ),
        MouseEventKind::ScrollRight => Some(
            InputMessage::MouseScroll { direction: MouseScrollDirection::Right },
        ),
        MouseEventKind::Moved => Some(
            InputMessage::MouseMoved { position: (mouse.column, mouse.row) },
        ),
        MouseEventKind::Other => None,
    }
}

/// The message that an event stands for, if it stands for one.
pub open spec fn message_of(event: TerminalEvent) -> Option<InputMessage> {
    match event {
        TerminalEvent::Key(key) => key_message(key),
        TerminalEvent::Mouse(mouse) => mouse_message(mouse),
        TerminalEvent::Other => None,
    }
}

/// Sorts an event of the terminal into a message, or into none.
pub fn classify(event: &TerminalEvent) -> (message: Option<InputMessage>)
    ensures
        message == message_of(*event),
{
    match event {
        TerminalEvent::Key(key) => {
            if key.kind != KeyEventKind::Press {
                None
            } else {
                match key.code {
                    KeyCode::Char('q') | KeyCode::Esc => Some(InputMessage::Quit),
                    KeyCode::Char('c') => {
                        if key.modifiers == CONTROL {
                            Some(InputMessage::Quit)
                        } else {
                            Some(InputMessage::KeyPress(key.code))
                        }
                    },
                    code => Some(InputMessage::KeyPress(code)),
                }
            }
        },
        TerminalEvent::Mouse(mouse) => match mouse.kind {
            MouseEventKind::ScrollDown => Some(
                InputMessage::MouseScroll { direction: MouseScrollDirection::Down },
            ),
            MouseEventKind::ScrollUp => Some(
                InputMessage::MouseScroll { direction: MouseScrollDirection::Up },
            ),
            MouseEventKind::ScrollLeft => Some(
                InputMessage::MouseScroll { direction: MouseScrollDirection::Left },
            ),
            MouseEventKind::ScrollRight => Some(
                InputMessage::MouseScroll { direction: MouseScrollDirection::Right },
            ),
            MouseEventKind::Moved => Some(
                InputMessage::MouseMoved { position: (mouse.column, mouse.row) },
            ),
            MouseEventKind::Other => None,
        },
        TerminalEvent::Other => None,
    }
}

/// What input capture does next.
#[derive(Clone, Copy, Debug, PartialEq, Eq)]
pub enum CaptureStep {
    /// Send the message to the dispatcher, then go on as `after_send` says.
    Send(InputMessage),
    /// Wait for the next event.
    Wait,
    /// End: the dispatcher is gone.
    Stop,
}

/// What input capture does with what it read: an event that stands for a
/// message has the message sent; an event that stands for none, and a read
/// that failed, are passed over.
pub open spec fn step_after_read(read: Option<TerminalEvent>) -> CaptureStep {
    match read {
        Some(event) => match message_of(event) {
            Some(message) => CaptureStep::Send(message),
            None => CaptureStep::Wait,
        },
        None => CaptureStep::Wait,
    }
}

/// Decides what input capture does with what it read.
pub fn after_read(read: Option<TerminalEvent>) -> (step: CaptureStep)
    ensures
        step == step_after_read(read),
        step != CaptureStep::Stop,
{
    match read {
        Some(event) => match classify(&event) {
            Some(message) => CaptureStep::Send(message),
            None => CaptureStep::Wait,
        },
        None => CaptureStep::Wait,
    }
}

/// Decides what input capture does after it tried to send a message: it
/// waits for the next event where the message was taken, and ends where the
/// dispatcher no longer listens. It never sends the message again.
pub fn after_send(delivered: bool) -> (step: CaptureStep)
    ensures
        delivered ==> step == CaptureStep::Wait,
        !delivered ==> step == CaptureStep::Stop,
{
    if delivered {
        CaptureStep::Wait
    } else {
        CaptureStep::Stop
    }
}

} // verus!
