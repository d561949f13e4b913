//! The events that reach the application, and how raw terminal input becomes
//! one of them.

use vstd::prelude::*;
use crate::ratio::Ratio;

verus! {

/// The logical key of a keyboard event.
#[derive(Clone, Copy, Debug, PartialEq, Eq, Structural)]
pub enum KeyCode {
    /// A key that produces a character.
    Char(char),
    /// Any key that produces none.
    Other,
}

/// What happened to the key.
#[derive(Clone, Copy, Debug, PartialEq, Eq, Structural)]
pub enum KeyEventKind {
    Press,
    Repeat,
    Release,
}

/// A keyboard event: a key and what happened to it.
#[derive(Clone, Copy, Debug, PartialEq, Eq, Structural)]
pub struct KeyEvent {
    pub code: KeyCode,
    pub kind: KeyEventKind,
}

impl KeyEvent {
    /// Whether this event is a press of the character key `c`.
    pub open spec fn is_press_of(self, c: char) -> bool {
        self.kind == KeyEventKind::Press && self.code == KeyCode::Char(c)
    }

    /// A press of the character key `c`.
    pub fn press(c: char) -> (key: KeyEvent)
        ensures
            key == (KeyEvent { code: KeyCode::Char(c), kind: KeyEventKind::Press }),
            key.is_press_of(c),
    {
        KeyEvent { code: KeyCode::Char(c), kind: KeyEventKind::Press }
    }

    /// Decides [`KeyEvent::is_press_of`].
    pub fn pressed(&self, c: char) -> (b: bool)
        ensures
            b == self.is_press_of(c),
    {
        match (self.kind, self.code) {
            (KeyEventKind::Press, KeyCode::Char(d)) => d == c,
            _ => false,
        }
    }
}

/// What the terminal reports, reduced to what the input listener tells apart.
#[derive(Clone, Copy, Debug, PartialEq, Eq, Structural)]
pub enum TerminalEvent {
    /// A keyboard event of any kind.
    Key(KeyEvent),
    /// The surface now has this many columns and rows.
    Resize { columns: u16, rows: u16 },
    /// Anything else: focus changes, mouse input, pasted text.
    Other,
}

/// An event delivered to the application.
#[derive(Clone, Copy, Debug, PartialEq, Eq, Structural)]
pub enum Event {
    /// A key was pressed.
    Input(KeyEvent),
    /// The terminal surface changed its dimensions.
    Resize,
    /// The heartbeat that keeps the display redrawn.
    Tick,
    /// The background worker reports the ratio it has reached.
    ProgressUpdate(Ratio),
}

impl Event {
    /// The event that the input listener forwards for `raw`, if it forwards
    /// one: key presses and resizes pass, everything else is dropped.
    pub open spec fn forwarded(raw: TerminalEvent) -> Option<Event> {
        match raw {
            TerminalEvent::Key(key) => if key.kind == KeyEventKind::Press {
                Some(Event::Input(key))
            } else {
                None
            },
            TerminalEvent::Resize { .. } => Some(Event::Resize),
            TerminalEvent::Other => None,
        }
    }

    /// Turns a raw terminal event into the event to forward, or `None` where
    /// the listener drops it.
    pub fn from_terminal(raw: TerminalEvent) -> (event: Option<Event>)
        ensures
            event == Event::forwarded(raw),
            event matches Some(Event::Input(key)) ==> raw == TerminalEvent::Key(key) && key.kind
                == KeyEventKind::Press,
            event == Some(Event::Resize) <==> raw is Resize,
            event is None <==> raw is Other || (raw matches TerminalEvent::Key(key) && key.kind
                != KeyEventKind::Press),
    {
        match raw {
            TerminalEvent::Key(key) => {
                match key.kind {
                    KeyEventKind::Press => Some(Event::Input(key)),
                    _ => None,
                }
            },
            TerminalEvent::Resize { .. } => Some(Event::Resize),
            TerminalEvent::Other => None,
        }
    }

    /// Whether this event is a press of the quit key.
    pub open spec fn is_quit_press(self) -> bool {
        self matches Event::Input(key) && key.is_press_of('q')
    }

    /// Whether this event is a press of the key that switches the accent
    /// colour.
    pub open spec fn is_toggle_press(self) -> bool {
        self matches Event::Input(key) && key.is_press_of('c')
    }
}

} // verus!
