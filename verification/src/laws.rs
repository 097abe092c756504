//! What holds of the transitions, for every state.

use vstd::prelude::*;
use crate::keys::Key;
use crate::model::Model;

verus! {

/// Every transition of a well-formed state ends in a well-formed state: the
/// cursor stays on a line of the buffer and within that line's positions.
pub proof fn transitions_keep_well_formed(m: Model, chr: char)
    requires
        m.wf(),
    ensures
        m.up().wf(),
        m.down().wf(),
        m.right().wf(),
        m.left().wf(),
        m.backspace().wf(),
        m.newline().wf(),
        m.insert(chr).wf(),
        m.keystroke(chr).wf(),
{
}

/// Whatever key is pressed, a well-formed state is followed by a well-formed
/// state, unless the key ends the session.
pub proof fn step_keeps_well_formed(m: Model, key: Key)
    requires
        m.wf(),
    ensures
        m.step(key) matches Some(next) ==> next.wf(),
{
}

/// Moving left and then right leaves the state as it was exactly when the
/// move left was possible, or when the line is empty and neither move does
/// anything. In the first column of a line with text the cursor ends one
/// column further right.
pub proof fn left_then_right(m: Model)
    requires
        m.wf(),
    ensures
        m.left().right() == m <==> m.column > 1 || m.line().len() == 0,
{
}

/// Moving right and then left leaves the state as it was exactly when the
/// move right was possible, or when the cursor is in the first column. At the
/// append position of a line with text the cursor ends one column further
/// left.
pub proof fn right_then_left(m: Model)
    requires
        m.wf(),
    ensures
        m.right().left() == m <==> m.column <= m.line().len() || m.column == 1,
{
}

/// Inserting a character and deleting it again restores buffer and cursor.
pub proof fn insert_then_backspace(m: Model, chr: char)
    requires
        m.wf(),
    ensures
        m.insert(chr).backspace() == m,
{
    let typed = m.insert(chr);
    assert(typed.line().remove(m.column - 1) =~= m.line());
    assert(typed.backspace().lines =~= m.lines);
}

/// Breaking a line and deleting the break again restores buffer and cursor,
/// wherever in the line the cursor stood.
pub proof fn newline_then_backspace(m: Model)
    requires
        m.wf(),
    ensures
        m.newline().backspace() == m,
{
    let broken = m.newline();
    assert(m.line().take(m.column - 1) + m.line().skip(m.column - 1) =~= m.line());
    assert(broken.backspace().lines =~= m.lines);
}

/// Whatever character is typed, a backspace right after it restores buffer
/// and cursor.
pub proof fn keystroke_then_backspace(m: Model, chr: char)
    requires
        m.wf(),
    ensures
        m.keystroke(chr).backspace() == m,
{
    insert_then_backspace(m, chr);
    newline_then_backspace(m);
}

} // verus!
