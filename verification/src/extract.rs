//! Structure extraction: finds every table declaration in the schema text.
//!
//! A table declaration has the shape
//! `table! { name ( primary_key ) { column_list } }`, with arbitrary
//! whitespace between the tokens. The scan is greedy and left-to-right:
//! at each position the pattern is tried in full; on success the scan
//! resumes after the match, on failure one position further. The captured
//! `primary_key` is the raw text between the parentheses, and
//! `raw_columns` is the text between the inner braces with the maximal
//! run of leading whitespace stripped (except that a column list made of
//! whitespace alone keeps its last character, so the capture is never
//! empty).

use vstd::prelude::*;
use crate::scan::{
    spec_skip_spaces, spec_word_end, spec_find_char, spec_table_keyword_at, skip_spaces, word_end,
    find_char, table_keyword_at, lemma_skip_spaces_range, lemma_word_end_range,
    lemma_find_char_range, lemma_find_char_found, lemma_skip_spaces_le,
};
use vstd::string::StrSliceExecFns;

verus! {

/// The three captures of one table declaration.
pub struct SpecTable {
    pub name: Seq<char>,
    pub primary_key: Seq<char>,
    pub raw_columns: Seq<char>,
}

/// One table declaration as extracted from the schema text: the table's
/// name, the raw text of its declared primary key, and the raw text of
/// its column list.
pub struct TableDecl {
    pub name: String,
    pub primary_key: String,
    pub raw_columns: String,
}

impl View for TableDecl {
    type V = SpecTable;

    open spec fn view(&self) -> SpecTable {
        SpecTable { name: self.name@, primary_key: self.primary_key@, raw_columns: self.raw_columns@ }
    }
}

/// The table declaration matched at position `i`, if the pattern matches
/// there, together with the position just past the match.
pub open spec fn spec_table_at(s: Seq<char>, i: int) -> Option<(SpecTable, int)> {
    if !spec_table_keyword_at(s, i) {
        None
    } else {
        let b = spec_skip_spaces(s, i + 6);
        if !(b < s.len() && s[b] == '{') {
            None
        } else {
            let ns = spec_skip_spaces(s, b + 1);
            let ne = spec_word_end(s, ns);
            if !(ne > ns) {
                None
            } else {
                let d = spec_skip_spaces(s, ne);
                if !(d < s.len() && s[d] == '(') {
                    None
                } else {
                    let ke = spec_find_char(s, d + 1, ')');
                    if !(d + 1 < ke && ke < s.len()) {
                        None
                    } else {
                        let e = spec_skip_spaces(s, ke + 1);
                        if !(e < s.len() && s[e] == '{') {
                            None
                        } else {
                            let ce = spec_find_char(s, e + 1, '}');
                            if !(e + 1 < ce && ce < s.len()) {
                                None
                            } else {
                                let g = spec_skip_spaces(s, e + 1);
                                let cs = if g < ce {
                                    g
                                } else {
                                    ce - 1
                                };
                                let f = spec_skip_spaces(s, ce + 1);
                                if !(f < s.len() && s[f] == '}') {
                                    None
                                } else {
                                    Some(
                                        (
                                            SpecTable {
                                                name: s.subrange(ns, ne),
                                                primary_key: s.subrange(d + 1, ke),
                                                raw_columns: s.subrange(cs, ce),
                                            },
                                            f + 1,
                                        ),
                                    )
                                }
                            }
                        }
                    }
                }
            }
        }
    }
}

/// A successful match ends strictly after where it began and within the text.
pub proof fn lemma_table_at_end(s: Seq<char>, i: int)
    requires
        spec_table_at(s, i) is Some,
    ensures
        i < spec_table_at(s, i).unwrap().1 <= s.len(),
{
    lemma_skip_spaces_range(s, i + 6);
    let b = spec_skip_spaces(s, i + 6);
    lemma_skip_spaces_range(s, b + 1);
    let ns = spec_skip_spaces(s, b + 1);
    lemma_word_end_range(s, ns);
    let ne = spec_word_end(s, ns);
    lemma_skip_spaces_range(s, ne);
    let d = spec_skip_spaces(s, ne);
    lemma_find_char_range(s, d + 1, ')');
    let ke = spec_find_char(s, d + 1, ')');
    lemma_skip_spaces_range(s, ke + 1);
    let e = spec_skip_spaces(s, ke + 1);
    lemma_find_char_range(s, e + 1, '}');
    let ce = spec_find_char(s, e + 1, '}');
    lemma_skip_spaces_range(s, ce + 1);
}

/// Tries to match one table declaration at position `i`.
pub fn table_at(s: &str, i: usize) -> (r: Option<(TableDecl, usize)>)
    requires
        i <= s@.len(),
    ensures
        match r {
            Some(p) => {
                &&& spec_table_at(s@, i as int) matches Some(q)
                &&& p.0@ == q.0
                &&& p.1 as int == q.1
            },
            None => spec_table_at(s@, i as int) is None,
        },
{
    let n = s.unicode_len();
    if !table_keyword_at(s, i) {
        return None;
    }
    let b = skip_spaces(s, i + 6);
    if b == n || s.get_char(b) != '{' {
        return None;
    }
    let ns = skip_spaces(s, b + 1);
    let ne = word_end(s, ns);
    if ne == ns {
        return None;
    }
    let d = skip_spaces(s, ne);
    if d == n || s.get_char(d) != '(' {
        return None;
    }
    let ke = find_char(s, d + 1, ')');
    if ke == d + 1 || ke == n {
        return None;
    }
    let e = skip_spaces(s, ke + 1);
    if e == n || s.get_char(e) != '{' {
        return None;
    }
    let ce = find_char(s, e + 1, '}');
    if ce == e + 1 || ce == n {
        return None;
    }
    let g = skip_spaces(s, e + 1);
    proof {
        lemma_find_char_found(s@, e as int + 1, '}');
        lemma_skip_spaces_le(s@, e as int + 1, ce as int);
    }
    let cs = if g < ce {
        g
    } else {
        ce - 1
    };
    let f = skip_spaces(s, ce + 1);
    if f == n || s.get_char(f) != '}' {
        return None;
    }
    let name = s.substring_char(ns, ne).to_owned();
    let primary_key = s.substring_char(d + 1, ke).to_owned();
    let raw_columns = s.substring_char(cs, ce).to_owned();
    Some((TableDecl { name, primary_key, raw_columns }, f + 1))
}

/// All table declarations found at or after position `i`, scanned
/// left-to-right without overlap.
pub open spec fn spec_tables_from(s: Seq<char>, i: int) -> Seq<SpecTable>
    decreases s.len() - i,
    when 0 <= i
    via spec_tables_from_decreases
{
    if i >= s.len() {
        Seq::empty()
    } else {
        match spec_table_at(s, i) {
            Some(p) => seq![p.0] + spec_tables_from(s, p.1),
            None => spec_tables_from(s, i + 1),
        }
    }
}

#[via_fn]
proof fn spec_tables_from_decreases(s: Seq<char>, i: int) {
    if i < s.len() {
        if spec_table_at(s, i) is Some {
            lemma_table_at_end(s, i);
        }
    }
}

/// Scans the whole schema text for table declarations, in input order.
pub fn scan_tables(s: &str) -> (r: Vec<TableDecl>)
    ensures
        r@.map_values(|t: TableDecl| t@) == spec_tables_from(s@, 0),
{
    let n = s.unicode_len();
    let mut r: Vec<TableDecl> = Vec::new();
    let mut i: usize = 0;
    loop
        invariant
            i <= n,
            n == s@.len(),
            spec_tables_from(s@, 0) == r@.map_values(|t: TableDecl| t@) + spec_tables_from(
                s@,
                i as int,
            ),
        ensures
            r@.map_values(|t: TableDecl| t@) == spec_tables_from(s@, 0),
        decreases s@.len() - i,
    {
        if i == n {
            assert(spec_tables_from(s@, i as int) =~= Seq::<SpecTable>::empty());
            assert(r@.map_values(|t: TableDecl| t@) + Seq::<SpecTable>::empty() =~= r@.map_values(
                |t: TableDecl| t@,
            ));
            break;
        }
        let ghost prev = r@.map_values(|t: TableDecl| t@);
        match table_at(s, i) {
            Some((t, end)) => {
                proof {
                    lemma_table_at_end(s@, i as int);
                }
                r.push(t);
                assert(r@.map_values(|t: TableDecl| t@) =~= prev.push(t@));
                assert(prev + spec_tables_from(s@, i as int) =~= r@.map_values(|t: TableDecl| t@)
                    + spec_tables_from(s@, end as int));
                i = end;
            },
            None => {
                i = i + 1;
            },
        }
    }
    r
}

} // verus!
