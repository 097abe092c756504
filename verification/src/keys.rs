//! Key presses and what each of them does to the editor.

use vstd::prelude::*;
use crate::model::Model;
use crate::state::{process_keystroke, State};

verus! {

/// A key press, as far as the editor tells key presses apart.
#[derive(Debug, Clone, Copy, PartialEq, Eq)]
pub enum Key {
    /// The backspace key.
    Backspace,
    /// A character typed without a modifier.
    Char(char),
    /// A character typed while the control key is held.
    Ctrl(char),
    /// Any other key.
    Other,
}

/// What the editor does after a key press.
#[derive(Debug)]
pub enum Step {
    /// The session goes on in this state.
    Next(State),
    /// The session ends.
    Quit,
}

impl Model {
    /// The state after a key press, or `None` where the key ends the session.
    /// Control with `c` quits; control with `p`, `n`, `f` and `b` moves the
    /// cursor up, down, right and left; a key that is not bound changes
    /// nothing.
    pub open spec fn step(self, key: Key) -> Option<Model> {
        match key {
            Key::Backspace => Some(self.backspace()),
            Key::Char(chr) => Some(self.keystroke(chr)),
            Key::Ctrl(chr) => if chr == 'c' {
                None
            } else if chr == 'p' {
                Some(self.up())
            } else if chr == 'n' {
                Some(self.down())
            } else if chr == 'f' {
                Some(self.right())
            } else if chr == 'b' {
                Some(self.left())
            } else {
                Some(self)
            },
            Key::Other => Some(self),
        }
    }

    /// The state is well-formed, and the cursor that the key press leads to
    /// can be held in sixteen bits a coordinate.
    pub open spec fn accepts(self, key: Key) -> bool {
        &&& self.wf()
        &&& match self.step(key) {
            Some(next) => next.fits(),
            None => true,
        }
    }
}

/// Whether `apply` can be called with this state and key.
pub fn accepts(state: &State, key: Key) -> (ok: bool)
    ensures
        ok == state@.accepts(key),
{
    if !state.is_well_formed() {
        return false;
    }
    let (column, row) = state.cursor;
    let len = state.buffer[(row - 1) as usize].as_str().unicode_len();
    match key {
        Key::Backspace => {
            if column > 1 || row == 1 {
                true
            } else {
                let above = state.buffer[(row - 2) as usize].as_str().unicode_len();
                above < u16::MAX as usize
            }
        },
        Key::Char(chr) => {
            if chr == '\r' || chr == '\n' {
                row < u16::MAX
            } else {
                column < u16::MAX
            }
        },
        Key::Ctrl(chr) => {
            if chr == 'n' {
                !(state.buffer.len() > row as usize) || row < u16::MAX
            } else if chr == 'f' {
                !(len >= column as usize) || column < u16::MAX
            } else {
                true
            }
        },
        Key::Other => true,
    }
}

/// Applies one key press to the state.
pub fn apply(state: &State, key: Key) -> (step: Step)
    requires
        state@.accepts(key),
    ensures
        match step {
            Step::Next(next) => state@.step(key) == Some(next@) && next@.wf(),
            Step::Quit => state@.step(key) is None,
        },
{
    match key {
        Key::Backspace => Step::Next(state.backspace()),
        Key::Char(chr) => Step::Next(process_keystroke(state, chr)),
        Key::Ctrl(chr) => {
            if chr == 'c' {
                Step::Quit
            } else if chr == 'p' {
                Step::Next(state.up())
            } else if chr == 'n' {
                Step::Next(state.down())
            } else if chr == 'f' {
                Step::Next(state.right())
            } else if chr == 'b' {
                Step::Next(state.left())
            } else {
                Step::Next(state.clone())
            }
        },
        Key::Other => Step::Next(state.clone()),
    }
}

} // verus!
