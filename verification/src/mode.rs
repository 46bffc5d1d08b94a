//! The interaction modes and the events that drive them.
//!
//! Exactly one mode is active at a time; it gates which keys are meaningful
//! and whether a keystroke goes to the cursor or to the input buffer.  The
//! embedding binary translates terminal events into `Key` values and carries
//! out the `Action` the dispatcher returns.

use vstd::prelude::*;

verus! {

/// The current interaction state.
#[derive(Clone, Copy, PartialEq, Eq, Structural, Debug)]
pub enum Mode {
    /// Navigate and command: `i` edits, `v` selects, `q` quits.
    Normal,
    /// Keystrokes go to the input buffer; Enter sends it.
    Editing,
    /// Read and navigate for copying out; Esc returns to Normal.
    Selecting,
}

/// A keyboard event, already stripped of terminal details.
#[derive(Clone, Copy, PartialEq, Eq, Structural, Debug)]
pub enum Key {
    /// A printable character.
    Char(char),
    Enter,
    Backspace,
    Esc,
    Left,
    Right,
    Up,
    Down,
    /// Any key the chat core gives no meaning.
    Other,
}

/// What the embedding binary must do after a keystroke was dispatched.
#[derive(Debug)]
pub enum Action {
    /// Nothing beyond the state change already made.
    Idle,
    /// Close the connection and mark the session closed.
    Quit,
    /// Write this text to the peer.
    Send(String),
    /// Put this text into the clipboard.
    Copy(String),
}

/// The mode reached from `m` when `k` is pressed: the mode state machine's
/// transition table.
pub open spec fn mode_after(m: Mode, k: Key) -> Mode {
    match m {
        Mode::Normal => match k {
            Key::Char(c) => {
                if c == 'i' {
                    Mode::Editing
                } else if c == 'v' {
                    Mode::Selecting
                } else {
                    Mode::Normal
                }
            },
            _ => Mode::Normal,
        },
        Mode::Editing => if k is Esc {
            Mode::Normal
        } else {
            Mode::Editing
        },
        Mode::Selecting => if k is Esc {
            Mode::Normal
        } else {
            Mode::Selecting
        },
    }
}

/// Whether `k` is one of the four cursor movement keys.
pub open spec fn is_arrow(k: Key) -> bool {
    k is Left || k is Right || k is Up || k is Down
}

} // verus!
