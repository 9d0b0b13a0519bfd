//! What the screens read of a terminal event.

use vstd::prelude::*;
use ratatui::crossterm::event::{Event, KeyCode, KeyEventKind};

verus! {

/// A terminal event of `crossterm`, as `ratatui` hands it on. It is read
/// only through `key_code` and `is_press`.
#[verifier::external_type_specification]
#[verifier::external_body]
pub struct ExEvent(Event);

/// The keys that the screens tell apart.
#[derive(Debug, Clone, Copy, PartialEq, Eq, Structural)]
pub enum Key {
    Char(char),
    Up,
    Down,
    PageUp,
    PageDown,
    Enter,
    Esc,
    Tab,
    BackTab,
    Other,
}

/// The key of a terminal event; `None` for an event that is no key event.
pub uninterp spec fn key_of(evt: Event) -> Option<Key>;

/// Whether a terminal event is a key event of the kind `Press`, as against a
/// release or a repeat.
pub uninterp spec fn is_pressed(evt: Event) -> bool;

/// Whether a key can change a line of text or move its cursor: the character
/// keys, and among the others those that the screens do not tell apart
/// (Backspace, Delete, the arrows left and right, Home and End are there).
pub open spec fn edits(key: Option<Key>) -> bool {
    key matches Some(Key::Char(_)) || key == Some(Key::Other)
}

/// Converts: the key of a crossterm key event, one variant of [`Key`] for
/// each key code that the screens tell apart and `Other` for the rest; `None`
/// for any other event. The result depends on the event alone, and carries
/// the name `key_of`.
#[verifier::external_body]
pub(crate) fn key_code(evt: &Event) -> (key: Option<Key>)
    ensures
        key == key_of(*evt),
{
    match evt {
        Event::Key(k) => Some(match k.code {
            KeyCode::Char(c) => Key::Char(c),
            KeyCode::Up => Key::Up,
            KeyCode::Down => Key::Down,
            KeyCode::PageUp => Key::PageUp,
            KeyCode::PageDown => Key::PageDown,
            KeyCode::Enter => Key::Enter,
            KeyCode::Esc => Key::Esc,
            KeyCode::Tab => Key::Tab,
            KeyCode::BackTab => Key::BackTab,
            _ => Key::Other,
        }),
        _ => None,
    }
}

/// Converts: whether the event is a key event of the kind `Press`. The
/// result depends on the event alone, and carries the name `is_pressed`.
#[verifier::external_body]
pub(crate) fn is_press(evt: &Event) -> (pressed: bool)
    ensures
        pressed == is_pressed(*evt),
{
    match evt {
        Event::Key(k) => match k.kind {
            KeyEventKind::Press => true,
            _ => false,
        },
        _ => false,
    }
}

} // verus!
