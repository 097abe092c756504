//! The mathematical model of an editor state and of its transitions.

use vstd::prelude::*;

verus! {

/// An editor state as a value of mathematics: the lines of the buffer and the
/// one-based cursor position.
pub struct Model {
    pub lines: Seq<Seq<char>>,
    pub column: int,
    pub row: int,
}

impl Model {
    /// One empty line, with the cursor on its only position.
    pub open spec fn blank() -> Model {
        Model { lines: seq![Seq::<char>::empty()], column: 1, row: 1 }
    }

    /// The line that the cursor is on.
    pub open spec fn line(self) -> Seq<char> {
        self.lines[self.row - 1]
    }

    /// The cursor is on a line of the buffer, and on one of its characters or
    /// on the position right behind the last one.
    pub open spec fn wf(self) -> bool {
        &&& 1 <= self.row <= self.lines.len()
        &&& 1 <= self.column <= self.line().len() + 1
    }

    /// Both cursor coordinates can be held in sixteen bits.
    pub open spec fn fits(self) -> bool {
        &&& self.column <= u16::MAX
        &&& self.row <= u16::MAX
    }

    /// The cursor moved to `row`, its column pulled back to the append
    /// position of that line where the line is too short.
    pub open spec fn at_row(self, row: int) -> Model {
        let reach = self.lines[row - 1].len() as int + 1;
        Model {
            lines: self.lines,
            column: if self.column <= reach { self.column } else { reach },
            row,
        }
    }

    /// One line up; nothing on the first line.
    pub open spec fn up(self) -> Model {
        if self.row > 1 {
            self.at_row(self.row - 1)
        } else {
            self
        }
    }

    /// One line down; nothing on the last line.
    pub open spec fn down(self) -> Model {
        if self.row < self.lines.len() {
            self.at_row(self.row + 1)
        } else {
            self
        }
    }

    /// One column right, at most to the append position.
    pub open spec fn right(self) -> Model {
        if self.column <= self.line().len() {
            Model { column: self.column + 1, ..self }
        } else {
            self
        }
    }

    /// One column left; nothing in the first column.
    pub open spec fn left(self) -> Model {
        if self.column > 1 {
            Model { column: self.column - 1, ..self }
        } else {
            self
        }
    }

    /// Deletes the character left of the cursor. In the first column the line
    /// is joined onto the end of the previous one; at the very first position
    /// nothing happens.
    pub open spec fn backspace(self) -> Model {
        if self.column > 1 {
            Model {
                lines: self.lines.update(self.row - 1, self.line().remove(self.column - 2)),
                column: self.column - 1,
                row: self.row,
            }
        } else if self.row > 1 {
            let above = self.lines[self.row - 2];
            Model {
                lines: self.lines.update(self.row - 2, above + self.line()).remove(self.row - 1),
                column: above.len() as int + 1,
                row: self.row - 1,
            }
        } else {
            self
        }
    }

    /// Splits the line at the cursor. What stood left of the cursor stays, the
    /// rest becomes the next line, and the cursor moves to its start.
    pub open spec fn newline(self) -> Model {
        let at = self.column - 1;
        Model {
            lines: self.lines.update(self.row - 1, self.line().take(at)).insert(
                self.row,
                self.line().skip(at),
            ),
            column: 1,
            row: self.row + 1,
        }
    }

    /// Puts `chr` at the cursor and moves the cursor behind it.
    pub open spec fn insert(self, chr: char) -> Model {
        Model {
            lines: self.lines.update(self.row - 1, self.line().insert(self.column - 1, chr)),
            column: self.column + 1,
            row: self.row,
        }
    }

    /// What a typed character does: a carriage return or a line feed breaks
    /// the line, any other character is inserted as it is.
    pub open spec fn keystroke(self, chr: char) -> Model {
        if chr == '\r' || chr == '\n' {
            self.newline()
        } else {
            self.insert(chr)
        }
    }
}

} // verus!
