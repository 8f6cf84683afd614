//! The editor's state: cursor, terminal size and mode, and how actions and
//! input events change it.
use vstd::prelude::*;

use crate::input::{Action, Event, KeyCode, Mode, resolve, normal_action, insert_action};

verus! {

/// A character to print at a cell of the screen.
#[derive(Clone, Copy, Debug, PartialEq, Eq, Structural)]
pub struct Glyph {
    pub column: u16,
    pub row: u16,
    pub ch: char,
}

/// What the terminal is asked to do at the end of one turn of the run loop.
#[derive(Clone, Copy, Debug, PartialEq, Eq, Structural)]
pub enum Tick {
    /// Stop the loop; nothing more is drawn.
    Quit,
    /// Print the glyph, if there is one, then move the terminal's cursor to
    /// the editor's cursor.
    Continue(Option<Glyph>),
}

/// The terminal's dimensions, in cells.
#[derive(Clone, Copy, Debug, PartialEq, Eq, Structural)]
pub struct Size {
    pub width: u16,
    pub height: u16,
}

/// The state of the editor.
///
/// `size` is the terminal's size as last seen; `cx` and `cy`
/// are the cursor's column and row. Moves keep the cursor within
/// `0..=width` and `0..=height`; writing a character advances the column
/// without that clamp.
#[derive(Clone, Copy, Debug, PartialEq, Eq, Structural)]
pub struct Editor {
    pub size: Size,
    pub cy: u16,
    pub cx: u16,
    pub mode: Mode,
}

impl Editor {
    /// The cursor lies within the terminal, edges included.
    pub open spec fn in_bounds(self) -> bool {
        self.cx <= self.size.width && self.cy <= self.size.height
    }

    /// The state after `a`.
    pub open spec fn after(self, a: Action) -> Editor {
        match a {
            Action::Quit => self,
            Action::MoveUp => Editor {
                cy: if self.cy == 0 { 0 } else { (self.cy - 1) as u16 },
                ..self
            },
            Action::MoveDown => Editor {
                cy: if self.cy < self.size.height { (self.cy + 1) as u16 } else { self.size.height },
                ..self
            },
            Action::MoveLeft => Editor {
                cx: if self.cx == 0 { 0 } else { (self.cx - 1) as u16 },
                ..self
            },
            Action::MoveRight => Editor {
                cx: if self.cx < self.size.width { (self.cx + 1) as u16 } else { self.size.width },
                ..self
            },
            Action::WriteChar(_) => Editor {
                cx: if self.cx < u16::MAX { (self.cx + 1) as u16 } else { self.cx },
                ..self
            },
            Action::EnterMode(m) => Editor { mode: m, ..self },
        }
    }

    /// What `a` prints, taken in this state: a written character goes to the
    /// cursor's cell.
    pub open spec fn printed(self, a: Action) -> Option<Glyph> {
        match a {
            Action::WriteChar(c) => Some(Glyph { column: self.cx, row: self.cy, ch: c }),
            _ => None,
        }
    }

    /// One turn of the run loop: the size is refreshed, then the event, if
    /// one came, is resolved under the current mode and its action applied.
    pub open spec fn turn(self, size: Size, ev: Option<Event>) -> (Editor, Tick) {
        let e = Editor { size: size, ..self };
        match ev {
            None => (e, Tick::Continue(None)),
            Some(ev) => match resolve(e.mode, ev) {
                None => (e, Tick::Continue(None)),
                Some(Action::Quit) => (e, Tick::Quit),
                Some(a) => (e.after(a), Tick::Continue(e.printed(a))),
            },
        }
    }

    /// The state at startup: normal mode, cursor at the origin, size not
    /// yet known.
    pub fn new() -> (r: Editor)
        ensures
            r == (Editor { size: Size { width: 0, height: 0 }, cy: 0, cx: 0, mode: Mode::Normal }),
    {
        Editor { size: Size { width: 0, height: 0 }, cy: 0, cx: 0, mode: Mode::Normal }
    }

    /// Where the terminal's cursor is drawn: `(column, row)`.
    pub fn draw(&self) -> (r: (u16, u16))
        ensures
            r == (self.cx, self.cy),
    {
        (self.cx, self.cy)
    }

    /// Takes a character written at the cursor: returns where it is printed
    /// and advances the cursor's column by one (saturating at `u16::MAX`).
    pub fn write_char(&mut self, c: char) -> (r: Glyph)
        ensures
            r == (Glyph { column: old(self).cx, row: old(self).cy, ch: c }),
            *final(self) == old(self).after(Action::WriteChar(c)),
    {
        let g = Glyph { column: self.cx, row: self.cy, ch: c };
        self.cx = self.cx.saturating_add(1);
        g
    }

    /// Applies `a` and returns what it prints, if anything.
    pub fn apply(&mut self, a: Action) -> (r: Option<Glyph>)
        ensures
            *final(self) == old(self).after(a),
            r == old(self).printed(a),
    {
        match a {
            Action::Quit => None,
            Action::MoveUp => {
                self.cy = self.cy.saturating_sub(1);
                None
            },
            Action::MoveDown => {
                if self.cy < self.size.height {
                    self.cy = self.cy + 1;
                } else {
                    self.cy = self.size.height;
                }
                None
            },
            Action::MoveLeft => {
                self.cx = self.cx.saturating_sub(1);
                None
            },
            Action::MoveRight => {
                if self.cx < self.size.width {
                    self.cx = self.cx + 1;
                } else {
                    self.cx = self.size.width;
                }
                None
            },
            Action::WriteChar(c) => Some(self.write_char(c)),
            Action::EnterMode(m) => {
                self.mode = m;
                None
            },
        }
    }

    /// Resolves `ev` under `mode` to the action it stands for, if any.
    pub fn handle_event(mode: Mode, ev: Event) -> (r: Option<Action>)
        ensures
            r == resolve(mode, ev),
    {
        match mode {
            Mode::Normal => Self::handle_normal_event(ev),
            Mode::Insert => Self::handle_insert_event(ev),
        }
    }

    /// Resolves `ev` as a command of normal mode.
    pub fn handle_normal_event(ev: Event) -> (r: Option<Action>)
        ensures
            r == normal_action(ev),
    {
        match ev {
            Event::Key(code) => match code {
                KeyCode::Left | KeyCode::Char('h') => Some(Action::MoveLeft),
                KeyCode::Right | KeyCode::Char('l') => Some(Action::MoveRight),
                KeyCode::Up | KeyCode::Char('k') => Some(Action::MoveUp),
                KeyCode::Down | KeyCode::Char('j') => Some(Action::MoveDown),
                KeyCode::Char('q') => Some(Action::Quit),
                KeyCode::Char('i') => Some(Action::EnterMode(Mode::Insert)),
                _ => None,
            },
            Event::Other => None,
        }
    }

    /// Resolves `ev` as input of insert mode: Escape returns to normal mode,
    /// a printable character is written, anything else is ignored.
    pub fn handle_insert_event(ev: Event) -> (r: Option<Action>)
        ensures
            r == insert_action(ev),
    {
        match ev {
            Event::Key(code) => match code {
                KeyCode::Esc => Some(Action::EnterMode(Mode::Normal)),
                KeyCode::Char(c) => {
                    let n = c as u32;
                    if n <= 0x1f || (0x7f <= n && n <= 0x9f) {
                        None
                    } else {
                        Some(Action::WriteChar(c))
                    }
                },
                _ => None,
            },
            Event::Other => None,
        }
    }

    /// Runs one turn of the loop on the terminal's current `size` and the
    /// event that arrived within the poll's wait, if any.
    pub fn step(&mut self, size: Size, ev: Option<Event>) -> (r: Tick)
        ensures
            (*final(self), r) == old(self).turn(size, ev),
    {
        self.size = size;
        match ev {
            None => Tick::Continue(None),
            Some(ev) => match Self::handle_event(self.mode, ev) {
                None => Tick::Continue(None),
                Some(Action::Quit) => Tick::Quit,
                Some(a) => Tick::Continue(self.apply(a)),
            },
        }
    }
}

} // verus!
