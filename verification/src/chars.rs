//! Character classes used by the schema scanner.
//!
//! A *word* character is an ASCII letter, digit or underscore; these make up
//! table names, column names and type identifiers. A *space* character is
//! one of the ASCII whitespace characters, which are insignificant between
//! the tokens of a table declaration.

use vstd::prelude::*;

verus! {

/// A character that may appear in an identifier: ASCII letter, digit or `_`.
pub open spec fn is_word_char(c: char) -> bool {
    ('a' <= c && c <= 'z') || ('A' <= c && c <= 'Z') || ('0' <= c && c <= '9') || c == '_'
}

/// An insignificant whitespace character: space, tab, line feed, vertical
/// tab, form feed or carriage return.
pub open spec fn is_space_char(c: char) -> bool {
    c == ' ' || c == '\t' || c == '\n' || c == '\u{b}' || c == '\u{c}' || c == '\r'
}

/// Decides whether `c` is a word character.
pub fn word_char(c: char) -> (r: bool)
    ensures
        r == is_word_char(c),
{
    ('a' <= c && c <= 'z') || ('A' <= c && c <= 'Z') || ('0' <= c && c <= '9') || c == '_'
}

/// Decides whether `c` is a whitespace character.
pub fn space_char(c: char) -> (r: bool)
    ensures
        r == is_space_char(c),
{
    c == ' ' || c == '\t' || c == '\n' || c == '\u{b}' || c == '\u{c}' || c == '\r'
}

} // verus!
