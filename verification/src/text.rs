//! Editing one line of text by character position.
//!
//! A line is a `String`; its view is the sequence of its characters, and every
//! position here counts characters, not bytes.

use vstd::prelude::*;

verus! {

/// `String::push` appends the given character to the end of the string and
/// leaves the characters before it as they were.
pub assume_specification[ String::push ](line: &mut String, chr: char)
    ensures
        final(line)@ == old(line)@.push(chr),
;

/// A copy of `line` with `chr` put in at position `at`.
pub fn with_char(line: &String, at: usize, chr: char) -> (out: String)
    requires
        at <= line@.len(),
    ensures
        out@ == line@.insert(at as int, chr),
{
    let text = line.as_str();
    let len = text.unicode_len();
    let mut out = String::from_str(text.substring_char(0, at));
    out.push(chr);
    out.append(text.substring_char(at, len));
    out
}

/// A copy of `line` without the character at position `at`.
pub fn without_char(line: &String, at: usize) -> (out: String)
    requires
        at < line@.len(),
    ensures
        out@ == line@.remove(at as int),
{
    let text = line.as_str();
    let len = text.unicode_len();
    let mut out = String::from_str(text.substring_char(0, at));
    out.append(text.substring_char(at + 1, len));
    out
}

/// The two parts of `line` left and right of position `at`.
pub fn split(line: &String, at: usize) -> (parts: (String, String))
    requires
        at <= line@.len(),
    ensures
        parts.0@ == line@.take(at as int),
        parts.1@ == line@.skip(at as int),
{
    let text = line.as_str();
    let len = text.unicode_len();
    let first = String::from_str(text.substring_char(0, at));
    let second = String::from_str(text.substring_char(at, len));
    (first, second)
}

/// `first` followed by `second`.
pub fn joined(first: &String, second: &String) -> (out: String)
    ensures
        out@ == first@ + second@,
{
    let mut out = first.clone();
    out.append(second.as_str());
    out
}

} // verus!
