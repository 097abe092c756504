//! The text that redraws the terminal for an editor state.

use vstd::prelude::*;
use crate::model::Model;
use crate::state::State;

verus! {

/// The control sequence that clears the whole screen.
pub open spec fn clear_sequence() -> Seq<char> {
    seq!['\u{1b}', '[', '2', 'J']
}

/// The character of a decimal digit.
pub open spec fn digit(d: int) -> char {
    seq!['0', '1', '2', '3', '4', '5', '6', '7', '8', '9'][d]
}

/// The decimal digits of `n`, the most significant first.
pub open spec fn decimal(n: nat) -> Seq<char>
    decreases n,
{
    if n < 10 {
        seq![digit(n as int)]
    } else {
        decimal(n / 10).push(digit((n % 10) as int))
    }
}

/// The control sequence that puts the terminal's cursor on a column and a
/// row, both counted from one. The row comes first.
pub open spec fn goto_sequence(column: int, row: int) -> Seq<char> {
    seq!['\u{1b}', '['] + decimal(row as nat) + seq![';'] + decimal(column as nat) + seq!['H']
}

/// The lines one after another, each closed by a carriage return and a line
/// feed.
pub open spec fn shown(lines: Seq<Seq<char>>) -> Seq<char>
    decreases lines.len(),
{
    if lines.len() == 0 {
        Seq::empty()
    } else {
        shown(lines.drop_last()) + lines.last() + seq!['\r', '\n']
    }
}

/// A full redraw: clear the screen, go to the top left corner, write every
/// line of the buffer on a row of its own, and put the terminal's cursor
/// where the editor's cursor is.
pub open spec fn frame(m: Model) -> Seq<char> {
    clear_sequence() + goto_sequence(1, 1) + shown(m.lines) + goto_sequence(m.column, m.row)
}

/// Formats `termion::clear::All`, which writes the escape character, an
/// opening square bracket and `2J`.
#[verifier::external_body]
fn clear_all() -> (text: String)
    ensures
        text@ == clear_sequence(),
{
    format!("{}", termion::clear::All)
}

/// Formats `termion::cursor::Goto`, which writes the escape character, an
/// opening square bracket, the row in decimal, a semicolon, the column in
/// decimal and `H`. The position `(0, 0)` is left out: the formatter asserts
/// that it is not asked for.
#[verifier::external_body]
fn goto(column: u16, row: u16) -> (text: String)
    requires
        !(column == 0 && row == 0),
    ensures
        text@ == goto_sequence(column as int, row as int),
{
    format!("{}", termion::cursor::Goto(column, row))
}

/// The text that redraws the terminal for `state`.
pub fn render(state: &State) -> (text: String)
    requires
        !(state.cursor.0 == 0 && state.cursor.1 == 0),
    ensures
        text@ == frame(state@),
{
    let mut text = clear_all();
    text.append(goto(1, 1).as_str());
    let ghost head = text@;
    let ghost lines = state@.lines;

    let mut i: usize = 0;
    while i < state.buffer.len()
        invariant
            i <= state.buffer.len(),
            lines == state@.lines,
            text@ == head + shown(lines.take(i as int)),
        decreases state.buffer.len() - i,
    {
        proof {
            assert(lines.take(i + 1).drop_last() =~= lines.take(i as int));
        }
        text.append(state.buffer[i].as_str());
        text.push('\r');
        text.push('\n');
        i += 1;
    }
    assert(lines.take(i as int) =~= lines);

    text.append(goto(state.cursor.0, state.cursor.1).as_str());
    text
}

} // verus!
