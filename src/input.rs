//! Editing modes, input events and the actions they resolve to.
use vstd::prelude::*;

verus! {

/// How keyboard input is read: as commands, or as text.
#[derive(Clone, Copy, Debug, PartialEq, Eq, Structural)]
pub enum Mode {
    Normal,
    Insert,
}

/// The identity of a pressed key, as far as the editor tells keys apart.
#[derive(Clone, Copy, Debug, PartialEq, Eq, Structural)]
pub enum KeyCode {
    Char(char),
    Left,
    Right,
    Up,
    Down,
    Esc,
    /// Any other key (function keys, Enter, Tab, ...).
    Other,
}

/// One input event from the terminal.
#[derive(Clone, Copy, Debug, PartialEq, Eq, Structural)]
pub enum Event {
    Key(KeyCode),
    /// A non-keyboard event: a resize, a mouse event, focus, a paste.
    Other,
}

/// An intent derived from one input event under the current mode.
#[derive(Clone, Copy, Debug, PartialEq, Eq, Structural)]
pub enum Action {
    Quit,
    MoveUp,
    MoveDown,
    MoveLeft,
    MoveRight,
    WriteChar(char),
    EnterMode(Mode),
}

/// A character that is not a Unicode control character (U+0000 to U+001F,
/// U+007F to U+009F).
pub open spec fn is_printable(c: char) -> bool {
    let n = c as u32;
    !(n <= 0x1f || (0x7f <= n && n <= 0x9f))
}

/// The command table of normal mode.
pub open spec fn normal_action(ev: Event) -> Option<Action> {
    match ev {
        Event::Key(KeyCode::Left) | Event::Key(KeyCode::Char('h')) => Some(Action::MoveLeft),
        Event::Key(KeyCode::Right) | Event::Key(KeyCode::Char('l')) => Some(Action::MoveRight),
        Event::Key(KeyCode::Up) | Event::Key(KeyCode::Char('k')) => Some(Action::MoveUp),
        Event::Key(KeyCode::Down) | Event::Key(KeyCode::Char('j')) => Some(Action::MoveDown),
        Event::Key(KeyCode::Char('q')) => Some(Action::Quit),
        Event::Key(KeyCode::Char('i')) => Some(Action::EnterMode(Mode::Insert)),
        _ => None,
    }
}

/// The command table of insert mode.
pub open spec fn insert_action(ev: Event) -> Option<Action> {
    match ev {
        Event::Key(KeyCode::Esc) => Some(Action::EnterMode(Mode::Normal)),
        Event::Key(KeyCode::Char(c)) => if is_printable(c) {
            Some(Action::WriteChar(c))
        } else {
            None
        },
        _ => None,
    }
}

/// The action that `ev` stands for in `mode`, if any.
pub open spec fn resolve(mode: Mode, ev: Event) -> Option<Action> {
    match mode {
        Mode::Normal => normal_action(ev),
        Mode::Insert => insert_action(ev),
    }
}

/// Whether the command table of `mode` has an entry for `ev`.
pub open spec fn is_mapped(mode: Mode, ev: Event) -> bool {
    match (mode, ev) {
        (Mode::Normal, Event::Key(k)) => {
            ||| k == KeyCode::Left
            ||| k == KeyCode::Right
            ||| k == KeyCode::Up
            ||| k == KeyCode::Down
            ||| k == KeyCode::Char('h')
            ||| k == KeyCode::Char('j')
            ||| k == KeyCode::Char('k')
            ||| k == KeyCode::Char('l')
            ||| k == KeyCode::Char('q')
            ||| k == KeyCode::Char('i')
        },
        (Mode::Insert, Event::Key(k)) => k == KeyCode::Esc || (k is Char && is_printable(k->Char_0)),
        (_, Event::Other) => false,
    }
}

} // verus!
