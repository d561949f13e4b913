//! State machine, event vocabulary and progress arithmetic for a terminal
//! progress gauge that is driven by keyboard input, a redraw heartbeat and a
//! background worker.
//!
//! Ratios are fixed-point: a [`ratio::Ratio`] counts ten-thousandths of the
//! whole, so every contract is stated over natural numbers.

pub mod app;
pub mod event;
pub mod lemmas;
pub mod ratio;
pub mod worker;

pub use app::{AccentColor, App, AppState, Reaction, RunError};
pub use event::{Event, KeyCode, KeyEvent, KeyEventKind, TerminalEvent};
pub use ratio::{Ratio, FULL};
pub use worker::ProgressWorker;
