//! Key events and the mode-gated dispatch: which event does what in which
//! mode, and when the session ends.

use vstd::prelude::*;
use crate::app::{App, AppView, CurrentScreen, CurrentlyEditing};

verus! {

/// Whether a key was pressed, auto-repeated, or released.
#[derive(Clone, Copy, PartialEq, Eq, Structural, Debug)]
pub enum KeyKind {
    Press,
    Repeat,
    Release,
}

/// The decoded key. `Other` stands for every key the editor ignores.
#[derive(Clone, Copy, PartialEq, Eq, Structural, Debug)]
pub enum KeyCode {
    Character(char),
    Enter,
    Backspace,
    Escape,
    Tab,
    Other,
}

/// One key event as the driver hands it in.
#[derive(Clone, Copy, PartialEq, Eq, Structural, Debug)]
pub struct KeyEvent {
    pub kind: KeyKind,
    pub code: KeyCode,
}

/// What one event does to the abstract state, and whether the session ends
/// (`Some(should_print)`) or goes on (`None`).
///
/// Releases are dropped everywhere. Browsing and the exit prompt also react
/// to auto-repeats; editing reacts to plain presses only. An exit prompt is
/// answered only by `y` (end and print) or `n` (end without printing): there
/// is no way back to browsing from it. Every other event is a no-op.
pub open spec fn step(s: AppView, ev: KeyEvent) -> (AppView, Option<bool>) {
    if ev.kind is Release {
        (s, None)
    } else {
        match s.current_screen {
            CurrentScreen::Main => match ev.code {
                KeyCode::Character(c) => if c == 'e' {
                    (s.begin_new_pair(), None)
                } else if c == 'q' {
                    (s.request_exit(), None)
                } else {
                    (s, None)
                },
                _ => (s, None),
            },
            CurrentScreen::Exiting => match ev.code {
                KeyCode::Character(c) => if c == 'y' {
                    (s, Some(true))
                } else if c == 'n' {
                    (s, Some(false))
                } else {
                    (s, None)
                },
                _ => (s, None),
            },
            CurrentScreen::Editing => if ev.kind is Press {
                match ev.code {
                    KeyCode::Enter => (s.advance(), None),
                    KeyCode::Backspace => (s.delete_last_char(), None),
                    KeyCode::Escape => (s.cancel_editing(), None),
                    KeyCode::Tab => (s.toggle_focus(), None),
                    KeyCode::Character(c) => (s.append_char(c), None),
                    KeyCode::Other => (s, None),
                }
            } else {
                (s, None)
            },
        }
    }
}

impl App {
    /// Dispatch one key event: the state moves exactly as `step` says, and
    /// the returned verdict is `step`'s — `None` to keep going,
    /// `Some(should_print)` when the session is over.
    pub fn handle_event(&mut self, ev: KeyEvent) -> (r: Option<bool>)
        requires
            old(self).wf(),
        ensures
            final(self).wf(),
            final(self)@ == step(old(self)@, ev).0,
            r == step(old(self)@, ev).1,
    {
        if ev.kind == KeyKind::Release {
            return None;
        }
        match self.current_screen {
            CurrentScreen::Main => {
                match ev.code {
                    KeyCode::Character(c) => {
                        if c == 'e' {
                            self.begin_new_pair();
                        } else if c == 'q' {
                            self.request_exit();
                        }
                    },
                    _ => {},
                }
                None
            },
            CurrentScreen::Exiting => {
                match ev.code {
                    KeyCode::Character(c) => {
                        if c == 'y' {
                            Some(true)
                        } else if c == 'n' {
                            Some(false)
                        } else {
                            None
                        }
                    },
                    _ => None,
                }
            },
            CurrentScreen::Editing => {
                if ev.kind == KeyKind::Press {
                    match ev.code {
                        KeyCode::Enter => self.advance(),
                        KeyCode::Backspace => self.delete_last_char(),
                        KeyCode::Escape => self.cancel_editing(),
                        KeyCode::Tab => self.toggle_editing_mode(),
                        KeyCode::Character(c) => self.append_char(c),
                        KeyCode::Other => {},
                    }
                }
                None
            },
        }
    }
}

} // verus!
