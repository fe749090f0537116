//! Position-based scanning primitives over a sequence of characters.
//!
//! Each spec function describes the greedy behaviour of one piece of the
//! table-declaration pattern: a run of whitespace, a run of word characters,
//! a scan up to a delimiter, or a fixed token. The executable functions
//! compute exactly the spec values.

use vstd::prelude::*;
use crate::chars::{is_word_char, is_space_char, word_char, space_char};
use vstd::string::StrSliceExecFns;

verus! {

/// First position at or after `i` whose character is not whitespace
/// (or the end of the text).
pub open spec fn spec_skip_spaces(s: Seq<char>, i: int) -> int
    decreases s.len() - i,
{
    if i < s.len() && is_space_char(s[i]) {
        spec_skip_spaces(s, i + 1)
    } else {
        i
    }
}

/// First position at or after `i` whose character is not a word character
/// (or the end of the text).
pub open spec fn spec_word_end(s: Seq<char>, i: int) -> int
    decreases s.len() - i,
{
    if i < s.len() && is_word_char(s[i]) {
        spec_word_end(s, i + 1)
    } else {
        i
    }
}

/// First position at or after `i` holding the character `stop`
/// (or the end of the text).
pub open spec fn spec_find_char(s: Seq<char>, i: int, stop: char) -> int
    decreases s.len() - i,
{
    if i < s.len() && s[i] != stop {
        spec_find_char(s, i + 1, stop)
    } else {
        i
    }
}

pub proof fn lemma_skip_spaces_range(s: Seq<char>, i: int)
    requires
        0 <= i <= s.len(),
    ensures
        i <= spec_skip_spaces(s, i) <= s.len(),
    decreases s.len() - i,
{
    if i < s.len() && is_space_char(s[i]) {
        lemma_skip_spaces_range(s, i + 1);
    }
}

pub proof fn lemma_word_end_range(s: Seq<char>, i: int)
    requires
        0 <= i <= s.len(),
    ensures
        i <= spec_word_end(s, i) <= s.len(),
    decreases s.len() - i,
{
    if i < s.len() && is_word_char(s[i]) {
        lemma_word_end_range(s, i + 1);
    }
}

pub proof fn lemma_find_char_range(s: Seq<char>, i: int, stop: char)
    requires
        0 <= i <= s.len(),
    ensures
        i <= spec_find_char(s, i, stop) <= s.len(),
    decreases s.len() - i,
{
    if i < s.len() && s[i] != stop {
        lemma_find_char_range(s, i + 1, stop);
    }
}

/// When the scan stops before the end of the text, it stops on `stop`.
pub proof fn lemma_find_char_found(s: Seq<char>, i: int, stop: char)
    requires
        0 <= i <= s.len(),
        spec_find_char(s, i, stop) < s.len(),
    ensures
        s[spec_find_char(s, i, stop)] == stop,
    decreases s.len() - i,
{
    if i < s.len() && s[i] != stop {
        lemma_find_char_found(s, i + 1, stop);
    }
}

/// Whitespace skipping never passes a non-whitespace character.
pub proof fn lemma_skip_spaces_le(s: Seq<char>, i: int, m: int)
    requires
        0 <= i <= m < s.len(),
        !is_space_char(s[m]),
    ensures
        spec_skip_spaces(s, i) <= m,
    decreases m - i,
{
    if i < m && is_space_char(s[i]) {
        lemma_skip_spaces_le(s, i + 1, m);
    }
}

/// Computes `spec_skip_spaces`.
pub fn skip_spaces(s: &str, i: usize) -> (j: usize)
    requires
        i <= s@.len(),
    ensures
        i <= j <= s@.len(),
        j == spec_skip_spaces(s@, i as int),
{
    let n = s.unicode_len();
    let mut j = i;
    loop
        invariant
            i <= j <= n,
            n == s@.len(),
            spec_skip_spaces(s@, i as int) == spec_skip_spaces(s@, j as int),
        ensures
            i <= j <= s@.len(),
            j == spec_skip_spaces(s@, i as int),
        decreases s@.len() - j,
    {
        if j == n {
            break;
        }
        let c = s.get_char(j);
        if !space_char(c) {
            break;
        }
        j = j + 1;
    }
    j
}

/// Computes `spec_word_end`.
pub fn word_end(s: &str, i: usize) -> (j: usize)
    requires
        i <= s@.len(),
    ensures
        i <= j <= s@.len(),
        j == spec_word_end(s@, i as int),
{
    let n = s.unicode_len();
    let mut j = i;
    loop
        invariant
            i <= j <= n,
            n == s@.len(),
            spec_word_end(s@, i as int) == spec_word_end(s@, j as int),
        ensures
            i <= j <= s@.len(),
            j == spec_word_end(s@, i as int),
        decreases s@.len() - j,
    {
        if j == n {
            break;
        }
        let c = s.get_char(j);
        if !word_char(c) {
            break;
        }
        j = j + 1;
    }
    j
}

/// Computes `spec_find_char`.
pub fn find_char(s: &str, i: usize, stop: char) -> (j: usize)
    requires
        i <= s@.len(),
    ensures
        i <= j <= s@.len(),
        j == spec_find_char(s@, i as int, stop),
{
    let n = s.unicode_len();
    let mut j = i;
    loop
        invariant
            i <= j <= n,
            n == s@.len(),
            spec_find_char(s@, i as int, stop) == spec_find_char(s@, j as int, stop),
        ensures
            i <= j <= s@.len(),
            j == spec_find_char(s@, i as int, stop),
        decreases s@.len() - j,
    {
        if j == n {
            break;
        }
        let c = s.get_char(j);
        if c == stop {
            break;
        }
        j = j + 1;
    }
    j
}

/// The fixed keyword `table!` stands at position `i`.
pub open spec fn spec_table_keyword_at(s: Seq<char>, i: int) -> bool {
    &&& 0 <= i
    &&& i + 6 <= s.len()
    &&& s[i] == 't'
    &&& s[i + 1] == 'a'
    &&& s[i + 2] == 'b'
    &&& s[i + 3] == 'l'
    &&& s[i + 4] == 'e'
    &&& s[i + 5] == '!'
}

/// Decides whether `table!` stands at position `i`.
pub fn table_keyword_at(s: &str, i: usize) -> (r: bool)
    requires
        i <= s@.len(),
    ensures
        r == spec_table_keyword_at(s@, i as int),
{
    let n = s.unicode_len();
    if n - i < 6 {
        return false;
    }
    s.get_char(i) == 't' && s.get_char(i + 1) == 'a' && s.get_char(i + 2) == 'b' && s.get_char(
        i + 3,
    ) == 'l' && s.get_char(i + 4) == 'e' && s.get_char(i + 5) == '!'
}

/// The arrow token `->` stands at position `i`.
pub open spec fn spec_arrow_at(s: Seq<char>, i: int) -> bool {
    &&& 0 <= i
    &&& i + 2 <= s.len()
    &&& s[i] == '-'
    &&& s[i + 1] == '>'
}

/// Decides whether `->` stands at position `i`.
pub fn arrow_at(s: &str, i: usize) -> (r: bool)
    requires
        i <= s@.len(),
    ensures
        r == spec_arrow_at(s@, i as int),
{
    let n = s.unicode_len();
    if n - i < 2 {
        return false;
    }
    s.get_char(i) == '-' && s.get_char(i + 1) == '>'
}

} // verus!
