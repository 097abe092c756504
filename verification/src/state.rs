//! The editor state and its transitions.

use vstd::prelude::*;
use crate::model::Model;
use crate::text;

verus! {

/// The buffer of text lines and the cursor, as `(column, row)`, both counted
/// from one.
#[derive(Debug)]
pub struct State {
    pub buffer: Vec<String>,
    pub cursor: (u16, u16),
}

/// The character sequences of the lines of a buffer.
pub open spec fn lines_of(buffer: Seq<String>) -> Seq<Seq<char>> {
    buffer.map_values(|line: String| line@)
}

impl View for State {
    type V = Model;

    open spec fn view(&self) -> Model {
        Model {
            lines: lines_of(self.buffer@),
            column: self.cursor.0 as int,
            row: self.cursor.1 as int,
        }
    }
}

impl Clone for State {
    fn clone(&self) -> (copy: State)
        ensures
            copy@ == self@,
    {
        State { buffer: self.buffer.clone(), cursor: self.cursor }
    }
}

impl State {
    /// A state with the given buffer and cursor.
    pub fn new(buffer: Vec<String>, cursor: (u16, u16)) -> (state: State)
        ensures
            state.buffer == buffer,
            state.cursor == cursor,
    {
        State { buffer: buffer, cursor: cursor }
    }

    /// One empty line, with the cursor at its start.
    pub fn blank() -> (state: State)
        ensures
            state@ == Model::blank(),
            state@.wf(),
    {
        let mut buffer: Vec<String> = Vec::new();
        buffer.push(String::new());
        let state = State::new(buffer, (1, 1));
        assert(state@.lines =~~= Model::blank().lines);
        state
    }

    /// Whether the cursor is on a line of the buffer and within that line's
    /// positions, the append position included.
    pub fn is_well_formed(&self) -> (ok: bool)
        ensures
            ok == self@.wf(),
    {
        let (column, row) = self.cursor;
        if row < 1 || row as usize > self.buffer.len() || column < 1 {
            return false;
        }
        let len = self.buffer[(row - 1) as usize].as_str().unicode_len();
        column as usize - 1 <= len
    }

    /// Moves the cursor one line up and keeps it within that line.
    pub fn up(&self) -> (next: State)
        requires
            self@.wf(),
        ensures
            next@ == self@.up(),
            next@.wf(),
    {
        let buffer = self.buffer.clone();
        let mut cursor = self.cursor;

        if cursor.1 > 1 {
            cursor.1 -= 1;

            let len = buffer[(cursor.1 - 1) as usize].as_str().unicode_len();
            if len < cursor.0 as usize {
                cursor.0 = len as u16 + 1;
            }
        }

        State::new(buffer, cursor)
    }

    /// Moves the cursor one line down and keeps it within that line.
    pub fn down(&self) -> (next: State)
        requires
            self@.wf(),
            self@.down().fits(),
        ensures
            next@ == self@.down(),
            next@.wf(),
    {
        let buffer = self.buffer.clone();
        let mut cursor = self.cursor;

        if buffer.len() > cursor.1 as usize {
            let len = buffer[cursor.1 as usize].as_str().unicode_len();
            if len < cursor.0 as usize {
                cursor.0 = len as u16 + 1;
            }

            cursor.1 += 1;
        }

        State::new(buffer, cursor)
    }

    /// Moves the cursor one column right, at most to the append position.
    pub fn right(&self) -> (next: State)
        requires
            self@.wf(),
            self@.right().fits(),
        ensures
            next@ == self@.right(),
            next@.wf(),
    {
        let buffer = self.buffer.clone();
        let mut cursor = self.cursor;

        if buffer[(cursor.1 - 1) as usize].as_str().unicode_len() >= cursor.0 as usize {
            cursor.0 += 1;
        }

        State::new(buffer, cursor)
    }

    /// Moves the cursor one column left; it stays in the first column.
    pub fn left(&self) -> (next: State)
        requires
            self@.wf(),
        ensures
            next@ == self@.left(),
            next@.wf(),
    {
        let buffer = self.buffer.clone();
        let mut cursor = self.cursor;

        if cursor.0 > 1 {
            cursor.0 -= 1;
        }

        State::new(buffer, cursor)
    }

    /// Deletes the character left of the cursor, or joins the line onto the
    /// previous one when the cursor is in the first column.
    pub fn backspace(&self) -> (next: State)
        requires
            self@.wf(),
            self@.backspace().fits(),
        ensures
            next@ == self@.backspace(),
            next@.wf(),
    {
        let mut buffer = self.buffer.clone();
        let mut cursor = self.cursor;

        if cursor.0 > 1 {
            cursor.0 -= 1;

            let pos = (cursor.0 - 1) as usize;
            let row = (cursor.1 - 1) as usize;
            let line = text::without_char(&buffer[row], pos);
            buffer[row] = line;
        } else if cursor.1 > 1 {
            let row = (cursor.1 - 1) as usize;
            let line = text::joined(&buffer[row - 1], &buffer[row]);
            let above_len = buffer[row - 1].as_str().unicode_len();
            buffer[row - 1] = line;
            buffer.remove(row);
            cursor.0 = above_len as u16 + 1;
            cursor.1 -= 1;
        }

        let next = State::new(buffer, cursor);
        assert(next@.lines =~~= self@.backspace().lines);
        next
    }

    /// Breaks the line at the cursor and moves the cursor to the start of the
    /// new line.
    pub fn newline(&self) -> (next: State)
        requires
            self@.wf(),
            self@.newline().fits(),
        ensures
            next@ == self@.newline(),
            next@.wf(),
    {
        let mut buffer = self.buffer.clone();
        let mut cursor = self.cursor;

        let row = (cursor.1 - 1) as usize;
        let (first, second) = text::split(&buffer[row], (cursor.0 - 1) as usize);
        buffer[row] = first;
        buffer.insert(row + 1, second);

        cursor.0 = 1;
        cursor.1 += 1;

        let next = State::new(buffer, cursor);
        assert(next@.lines =~~= self@.newline().lines);
        next
    }

    /// Puts `chr` into the line at the cursor and moves the cursor behind it.
    pub fn insert(&self, chr: char) -> (next: State)
        requires
            self@.wf(),
            self@.insert(chr).fits(),
        ensures
            next@ == self@.insert(chr),
            next@.wf(),
    {
        let mut buffer = self.buffer.clone();
        let mut cursor = self.cursor;

        let row = (cursor.1 - 1) as usize;
        let line = text::with_char(&buffer[row], (cursor.0 - 1) as usize, chr);
        buffer[row] = line;

        cursor.0 += 1;

        let next = State::new(buffer, cursor);
        assert(next@.lines =~~= self@.insert(chr).lines);
        next
    }
}

/// Applies a typed character: a carriage return or a line feed breaks the
/// line, any other character is inserted as it is.
pub fn process_keystroke(state: &State, chr: char) -> (next: State)
    requires
        state@.wf(),
        state@.keystroke(chr).fits(),
    ensures
        next@ == state@.keystroke(chr),
        next@.wf(),
{
    if chr == '\r' || chr == '\n' {
        state.newline()
    } else {
        state.insert(chr)
    }
}

} // verus!
