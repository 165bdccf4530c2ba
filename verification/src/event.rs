//! Events consumed by the application loop.
//!
//! Three origins are merged into one ordered stream: key presses read
//! from the terminal, a fixed-cadence tick that only bounds polling
//! latency, and a periodic auto-refresh task that injects a synthetic
//! press of the reload key. The consumer cannot tell the synthetic
//! reload apart from a real one, so all state mutation stays with the
//! single consumer of the stream.

use vstd::prelude::*;

verus! {

/// The keys the dashboard reacts to. Anything else the terminal can
/// produce arrives as `Other` and is ignored by every mode.
#[derive(Clone, Copy, PartialEq, Eq, Structural, Debug)]
pub enum KeyCode {
    Char(char),
    Enter,
    Backspace,
    Left,
    Right,
    Up,
    Down,
    Tab,
    Esc,
    Other,
}

/// One key press: the key and whether the control modifier was held.
#[derive(Clone, Copy, PartialEq, Eq, Structural, Debug)]
pub struct KeyEvent {
    pub code: KeyCode,
    pub ctrl: bool,
}

impl KeyEvent {
    /// A press of `code` without modifiers.
    pub fn plain(code: KeyCode) -> (k: KeyEvent)
        ensures
            k == (KeyEvent { code, ctrl: false }),
    {
        KeyEvent { code, ctrl: false }
    }

    /// The event the auto-refresh timer injects: indistinguishable from
    /// the user pressing the reload key.
    pub fn synthetic_reload() -> (k: KeyEvent)
        ensures
            k == (KeyEvent { code: KeyCode::Char('r'), ctrl: false }),
    {
        KeyEvent { code: KeyCode::Char('r'), ctrl: false }
    }
}

/// One item of the merged event stream.
#[derive(Clone, Copy, PartialEq, Eq, Structural, Debug)]
pub enum Event {
    Tick,
    Key(KeyEvent),
}

} // verus!
