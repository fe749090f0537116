//! Column extraction: finds every column declaration in one table's raw
//! column-list text.
//!
//! A column declaration has the shape `name -> Type`, with arbitrary
//! whitespace around the arrow. The type may carry one level of
//! parametrization, `Outer<Inner>`; where the text after the outer type
//! name is not a complete `<word>` suffix, the outer name alone is the
//! type. The scan is greedy and left-to-right, non-overlapping, and
//! skips over text that matches no declaration.

use vstd::prelude::*;
use crate::scan::{
    spec_skip_spaces, spec_word_end, spec_arrow_at, skip_spaces, word_end, arrow_at,
    lemma_skip_spaces_range, lemma_word_end_range,
};
use vstd::string::StrSliceExecFns;

verus! {

/// The two captures of one column declaration.
pub struct SpecColumn {
    pub name: Seq<char>,
    pub source_type: Seq<char>,
}

/// One column declaration as extracted from a table's raw column list:
/// the column's name and its declared source type.
pub struct ColumnDecl {
    pub name: String,
    pub source_type: String,
}

impl View for ColumnDecl {
    type V = SpecColumn;

    open spec fn view(&self) -> SpecColumn {
        SpecColumn { name: self.name@, source_type: self.source_type@ }
    }
}

/// The column declaration matched at position `i`, if the pattern matches
/// there, together with the position just past the match.
pub open spec fn spec_column_at(s: Seq<char>, i: int) -> Option<(SpecColumn, int)> {
    if i < 0 {
        None
    } else {
        let ne = spec_word_end(s, i);
        if !(ne > i) {
            None
        } else {
            let a = spec_skip_spaces(s, ne);
            if !spec_arrow_at(s, a) {
                None
            } else {
                let b = spec_skip_spaces(s, a + 2);
                let te = spec_word_end(s, b);
                if !(te > b) {
                    None
                } else {
                    if te < s.len() && s[te] == '<' {
                        let we = spec_word_end(s, te + 1);
                        if te + 1 < we && we < s.len() && s[we] == '>' {
                            Some(
                                (
                                    SpecColumn {
                                        name: s.subrange(i, ne),
                                        source_type: s.subrange(b, we + 1),
                                    },
                                    we + 1,
                                ),
                            )
                        } else {
                            Some(
                                (
                                    SpecColumn {
                                        name: s.subrange(i, ne),
                                        source_type: s.subrange(b, te),
                                    },
                                    te,
                                ),
                            )
                        }
                    } else {
                        Some(
                            (
                                SpecColumn { name: s.subrange(i, ne), source_type: s.subrange(b, te) },
                                te,
                            ),
                        )
                    }
                }
            }
        }
    }
}

/// A successful match ends strictly after where it began and within the text.
pub proof fn lemma_column_at_end(s: Seq<char>, i: int)
    requires
        spec_column_at(s, i) is Some,
    ensures
        i < spec_column_at(s, i).unwrap().1 <= s.len(),
{
    lemma_word_end_range(s, i);
    let ne = spec_word_end(s, i);
    lemma_skip_spaces_range(s, ne);
    let a = spec_skip_spaces(s, ne);
    lemma_skip_spaces_range(s, a + 2);
    let b = spec_skip_spaces(s, a + 2);
    lemma_word_end_range(s, b);
    let te = spec_word_end(s, b);
    if te < s.len() && s[te] == '<' {
        lemma_word_end_range(s, te + 1);
    }
}

/// Tries to match one column declaration at position `i`.
pub fn column_at(s: &str, i: usize) -> (r: Option<(ColumnDecl, usize)>)
    requires
        i <= s@.len(),
    ensures
        match r {
            Some(p) => {
                &&& spec_column_at(s@, i as int) matches Some(q)
                &&& p.0@ == q.0
                &&& p.1 as int == q.1
            },
            None => spec_column_at(s@, i as int) is None,
        },
{
    let n = s.unicode_len();
    let ne = word_end(s, i);
    if ne == i {
        return None;
    }
    let a = skip_spaces(s, ne);
    if !arrow_at(s, a) {
        return None;
    }
    let b = skip_spaces(s, a + 2);
    let te = word_end(s, b);
    if te == b {
        return None;
    }
    let name = s.substring_char(i, ne).to_owned();
    if te < n && s.get_char(te) == '<' {
        let we = word_end(s, te + 1);
        if te + 1 < we && we < n && s.get_char(we) == '>' {
            let source_type = s.substring_char(b, we + 1).to_owned();
            return Some((ColumnDecl { name, source_type }, we + 1));
        }
    }
    let source_type = s.substring_char(b, te).to_owned();
    Some((ColumnDecl { name, source_type }, te))
}

/// All column declarations found at or after position `i`, scanned
/// left-to-right without overlap.
pub open spec fn spec_columns_from(s: Seq<char>, i: int) -> Seq<SpecColumn>
    decreases s.len() - i,
    when 0 <= i
    via spec_columns_from_decreases
{
    if i >= s.len() {
        Seq::empty()
    } else {
        match spec_column_at(s, i) {
            Some(p) => seq![p.0] + spec_columns_from(s, p.1),
            None => spec_columns_from(s, i + 1),
        }
    }
}

#[via_fn]
proof fn spec_columns_from_decreases(s: Seq<char>, i: int) {
    if i < s.len() {
        if spec_column_at(s, i) is Some {
            lemma_column_at_end(s, i);
        }
    }
}

/// The ordered column declarations of one table's raw column list.
pub open spec fn spec_columns(s: Seq<char>) -> Seq<SpecColumn> {
    spec_columns_from(s, 0)
}

/// Scans a raw column list for column declarations, in source order.
pub fn scan_columns(s: &str) -> (r: Vec<ColumnDecl>)
    ensures
        r@.map_values(|c: ColumnDecl| c@) == spec_columns(s@),
{
    let n = s.unicode_len();
    let mut r: Vec<ColumnDecl> = Vec::new();
    let mut i: usize = 0;
    loop
        invariant
            i <= n,
            n == s@.len(),
            spec_columns_from(s@, 0) == r@.map_values(|c: ColumnDecl| c@) + spec_columns_from(
                s@,
                i as int,
            ),
        ensures
            r@.map_values(|c: ColumnDecl| c@) == spec_columns_from(s@, 0),
        decreases s@.len() - i,
    {
        if i == n {
            assert(spec_columns_from(s@, i as int) =~= Seq::<SpecColumn>::empty());
            assert(r@.map_values(|c: ColumnDecl| c@) + Seq::<SpecColumn>::empty() =~= r@.map_values(
                |c: ColumnDecl| c@,
            ));
            break;
        }
        let ghost prev = r@.map_values(|c: ColumnDecl| c@);
        match column_at(s, i) {
            Some((c, end)) => {
                proof {
                    lemma_column_at_end(s@, i as int);
                }
                r.push(c);
                assert(r@.map_values(|c: ColumnDecl| c@) =~= prev.push(c@));
                assert(prev + spec_columns_from(s@, i as int) =~= r@.map_values(
                    |c: ColumnDecl| c@,
                ) + spec_columns_from(s@, end as int));
                i = end;
            },
            None => {
                i = i + 1;
            },
        }
    }
    r
}

} // verus!
