//! The column translator: turns one table declaration into the clauses of
//! a `CREATE TABLE` statement.
//!
//! Each column declaration becomes one clause, in source order. The first
//! column whose name equals the table's declared primary key carries the
//! `PRIMARY KEY` role; every other column is `NOT NULL`. When no column
//! name equals the declared key, the statement instead carries a trailing
//! `PRIMARY KEY (...)` constraint. Position diagnostics are returned as
//! structured warnings, never as errors.

use vstd::prelude::*;
use crate::columns::{SpecColumn, ColumnDecl, spec_columns, scan_columns};
use crate::extract::{SpecTable, TableDecl};
use crate::types::{spec_map_column_type, map_column_type};
use crate::text::str_eq;
use vstd::string::StringExecFns;

verus! {

/// The nullability or key role of one column clause.
#[derive(Clone, Copy, PartialEq, Eq, Structural, Debug)]
pub enum Role {
    NotNull,
    PrimaryKey,
}

/// Why a translation run failed. Any failure aborts the whole run: a
/// migration with no tables, or a table with no columns, is never useful.
#[derive(Clone, Copy, PartialEq, Eq, Structural, Debug)]
pub enum SchemaError {
    /// The schema text held no table declaration at all.
    NoTablesFound,
    /// A table declaration held no parseable column declaration.
    NoColumnsFound,
}

/// The model of one column clause.
pub struct SpecClause {
    pub name: Seq<char>,
    pub sql_type: Seq<char>,
    pub role: Role,
}

/// One SQL column clause: the column's name, its mapped SQL type, and its
/// nullability or key role.
pub struct ColumnClause {
    pub name: String,
    pub sql_type: String,
    pub role: Role,
}

impl View for ColumnClause {
    type V = SpecClause;

    open spec fn view(&self) -> SpecClause {
        SpecClause { name: self.name@, sql_type: self.sql_type@, role: self.role }
    }
}

/// The model of one diagnostic warning.
pub enum SpecWarning {
    FirstColumnNotPrimaryKey { column: Seq<char>, primary_key: Seq<char> },
    PrimaryKeyNotFirst { primary_key: Seq<char>, first_column: Seq<char> },
}

/// A non-fatal diagnostic about primary-key placement.
pub enum Warning {
    /// The first declared column is not the declared primary key.
    FirstColumnNotPrimaryKey { column: String, primary_key: String },
    /// The declared primary key appears among the columns, but not first.
    PrimaryKeyNotFirst { primary_key: String, first_column: String },
}

impl View for Warning {
    type V = SpecWarning;

    open spec fn view(&self) -> SpecWarning {
        match self {
            Warning::FirstColumnNotPrimaryKey { column, primary_key } => {
                SpecWarning::FirstColumnNotPrimaryKey {
                    column: column@,
                    primary_key: primary_key@,
                }
            },
            Warning::PrimaryKeyNotFirst { primary_key, first_column } => {
                SpecWarning::PrimaryKeyNotFirst {
                    primary_key: primary_key@,
                    first_column: first_column@,
                }
            },
        }
    }
}

/// The model of one complete `CREATE TABLE` statement.
pub struct SpecStatement {
    pub name: Seq<char>,
    pub column_clauses: Seq<SpecClause>,
    pub trailing_primary_key: Option<Seq<char>>,
}

/// One complete `CREATE TABLE` statement: the table's name, its ordered
/// column clauses, and, where no clause carries the key role, the trailing
/// primary-key constraint.
pub struct TableStatement {
    pub name: String,
    pub column_clauses: Vec<ColumnClause>,
    pub trailing_primary_key: Option<String>,
}

impl View for TableStatement {
    type V = SpecStatement;

    open spec fn view(&self) -> SpecStatement {
        SpecStatement {
            name: self.name@,
            column_clauses: self.column_clauses@.map_values(|c: ColumnClause| c@),
            trailing_primary_key: match self.trailing_primary_key {
                Some(ref k) => Some(k@),
                None => None,
            },
        }
    }
}

/// Some column's name equals the declared primary key.
pub open spec fn spec_key_found(cols: Seq<SpecColumn>, pk: Seq<char>) -> bool {
    exists|i: int| 0 <= i < cols.len() && cols[i].name == pk
}

/// Column `i` resolves the primary key: its name equals the declared key
/// and no earlier column's does. The key is resolved at most once; later
/// columns of the same name stay `NOT NULL`.
pub open spec fn spec_resolves_key(cols: Seq<SpecColumn>, pk: Seq<char>, i: int) -> bool {
    &&& 0 <= i < cols.len()
    &&& cols[i].name == pk
    &&& forall|k: int| 0 <= k < i ==> cols[k].name != pk
}

/// The clause derived from column `i`: the column's name, its mapped SQL
/// type, and the `PrimaryKey` role exactly where the column resolves the key.
pub open spec fn spec_clause(cols: Seq<SpecColumn>, pk: Seq<char>, i: int) -> SpecClause {
    SpecClause {
        name: cols[i].name,
        sql_type: spec_map_column_type(cols[i].source_type),
        role: if spec_resolves_key(cols, pk, i) {
            Role::PrimaryKey
        } else {
            Role::NotNull
        },
    }
}

/// The ordered clauses derived from a table's columns.
pub open spec fn spec_clauses(cols: Seq<SpecColumn>, pk: Seq<char>) -> Seq<SpecClause> {
    Seq::new(cols.len(), |i: int| spec_clause(cols, pk, i))
}

/// The trailing constraint: the declared key verbatim when no column
/// resolved it, nothing otherwise.
pub open spec fn spec_trailing_key(cols: Seq<SpecColumn>, pk: Seq<char>) -> Option<Seq<char>> {
    if spec_key_found(cols, pk) {
        None
    } else {
        Some(pk)
    }
}

/// The diagnostics of one table, in emission order: first that the first
/// column is not the declared key, then, where a later column resolved the
/// key, that the key was not first.
pub open spec fn spec_warnings(cols: Seq<SpecColumn>, pk: Seq<char>) -> Seq<SpecWarning> {
    let first_not_key = cols.len() > 0 && cols[0].name != pk;
    let w1 = if first_not_key {
        seq![SpecWarning::FirstColumnNotPrimaryKey { column: cols[0].name, primary_key: pk }]
    } else {
        Seq::empty()
    };
    let w2 = if first_not_key && spec_key_found(cols, pk) {
        seq![SpecWarning::PrimaryKeyNotFirst { primary_key: pk, first_column: cols[0].name }]
    } else {
        Seq::empty()
    };
    w1 + w2
}

/// The translation of one table declaration: its statement and its
/// diagnostics, or the error that aborts the run.
pub open spec fn spec_translate_table(t: SpecTable) -> Result<
    (SpecStatement, Seq<SpecWarning>),
    SchemaError,
> {
    let cols = spec_columns(t.raw_columns);
    if cols.len() == 0 {
        Err(SchemaError::NoColumnsFound)
    } else {
        Ok(
            (
                SpecStatement {
                    name: t.name,
                    column_clauses: spec_clauses(cols, t.primary_key),
                    trailing_primary_key: spec_trailing_key(cols, t.primary_key),
                },
                spec_warnings(cols, t.primary_key),
            ),
        )
    }
}

/// Law: translation drops and duplicates no column. A translated table
/// emits exactly one clause per column declaration found in its raw column
/// text, in source order, each clause carrying its column's name and its
/// column's mapped type.
pub proof fn lemma_clauses_cover_columns(t: SpecTable)
    requires
        spec_translate_table(t) is Ok,
    ensures
        ({
            let st = spec_translate_table(t)->Ok_0.0;
            let cols = spec_columns(t.raw_columns);
            &&& st.column_clauses.len() == cols.len()
            &&& forall|i: int|
                0 <= i < cols.len() ==> (#[trigger] st.column_clauses[i]).name == cols[i].name
                    && st.column_clauses[i].sql_type == spec_map_column_type(cols[i].source_type)
        }),
{
}

proof fn lemma_first_key_exists(cols: Seq<SpecColumn>, pk: Seq<char>, j: int)
    requires
        0 <= j < cols.len(),
        cols[j].name == pk,
    ensures
        exists|i: int| spec_resolves_key(cols, pk, i),
    decreases j,
{
    if forall|k: int| 0 <= k < j ==> (#[trigger] cols[k]).name != pk {
        assert(spec_resolves_key(cols, pk, j));
    } else {
        let k = choose|k: int| 0 <= k < j && cols[k].name == pk;
        lemma_first_key_exists(cols, pk, k);
    }
}

/// Law: every translated table carries exactly one primary-key
/// designation — either exactly one clause with the `PrimaryKey` role and
/// no trailing constraint, or no such clause and a non-empty trailing
/// constraint holding the declared key; never both, never neither.
pub proof fn lemma_exactly_one_primary_key(t: SpecTable)
    requires
        t.primary_key.len() > 0,
        spec_translate_table(t) is Ok,
    ensures
        ({
            let st = spec_translate_table(t)->Ok_0.0;
            &&& (st.trailing_primary_key is None <==> exists|i: int|
                0 <= i < st.column_clauses.len() && (#[trigger] st.column_clauses[i]).role
                    == Role::PrimaryKey)
            &&& (forall|i: int, j: int|
                (0 <= i < st.column_clauses.len() && 0 <= j < st.column_clauses.len() && (
                #[trigger] st.column_clauses[i]).role == Role::PrimaryKey && (
                #[trigger] st.column_clauses[j]).role == Role::PrimaryKey) ==> i == j)
            &&& (st.trailing_primary_key matches Some(k) ==> k == t.primary_key && k.len() > 0)
        }),
{
    let cols = spec_columns(t.raw_columns);
    let pk = t.primary_key;
    let st = spec_translate_table(t)->Ok_0.0;
    assert(st.column_clauses == spec_clauses(cols, pk));
    if spec_key_found(cols, pk) {
        let j = choose|j: int| 0 <= j < cols.len() && cols[j].name == pk;
        lemma_first_key_exists(cols, pk, j);
        let i = choose|i: int| spec_resolves_key(cols, pk, i);
        assert(st.column_clauses[i].role == Role::PrimaryKey);
    } else {
        assert forall|i: int|
            0 <= i < st.column_clauses.len() implies (#[trigger] st.column_clauses[i]).role
            != Role::PrimaryKey by {
            if spec_resolves_key(cols, pk, i) {
                assert(spec_key_found(cols, pk));
            }
        }
    }
    assert forall|i: int, j: int|
        (0 <= i < st.column_clauses.len() && 0 <= j < st.column_clauses.len() && (
        #[trigger] st.column_clauses[i]).role == Role::PrimaryKey && (
        #[trigger] st.column_clauses[j]).role == Role::PrimaryKey) implies i == j by {
        assert(spec_resolves_key(cols, pk, i));
        assert(spec_resolves_key(cols, pk, j));
        if i < j {
            assert(cols[i].name == pk);
            assert(false);
        }
        if j < i {
            assert(cols[j].name == pk);
            assert(false);
        }
    }
}

/// Translates one table declaration into its statement and diagnostics.
/// A table with no parseable column is a fatal error.
pub fn translate_table(t: &TableDecl) -> (r: Result<(TableStatement, Vec<Warning>), SchemaError>)
    ensures
        match r {
            Ok(p) => {
                &&& spec_translate_table(t@) matches Ok(q)
                &&& p.0@ == q.0
                &&& p.1@.map_values(|w: Warning| w@) == q.1
            },
            Err(e) => spec_translate_table(t@) == Err::<
                (SpecStatement, Seq<SpecWarning>),
                SchemaError,
            >(e),
        },
{
    let ghost pk = t.primary_key@;
    let cols = scan_columns(t.raw_columns.as_str());
    let ghost scols = cols@.map_values(|c: ColumnDecl| c@);
    if cols.len() == 0 {
        return Err(SchemaError::NoColumnsFound);
    }
    let n = cols.len();
    let mut clauses: Vec<ColumnClause> = Vec::new();
    let mut warnings: Vec<Warning> = Vec::new();
    let mut found = false;
    let mut j: usize = 0;
    while j < n
        invariant
            0 < n == cols.len(),
            j <= n,
            scols == cols@.map_values(|c: ColumnDecl| c@),
            pk == t.primary_key@,
            found == exists|k: int| 0 <= k < j && scols[k].name == pk,
            clauses@.len() == j,
            forall|i: int| 0 <= i < j ==> #[trigger] clauses@[i]@ == spec_clause(scols, pk, i),
            warnings@.map_values(|w: Warning| w@) == ({
                let first_not_key = j > 0 && scols[0].name != pk;
                let w1: Seq<SpecWarning> = if first_not_key {
                    seq![
                        SpecWarning::FirstColumnNotPrimaryKey {
                            column: scols[0].name,
                            primary_key: pk,
                        },
                    ]
                } else {
                    Seq::empty()
                };
                let w2: Seq<SpecWarning> = if first_not_key && found {
                    seq![
                        SpecWarning::PrimaryKeyNotFirst {
                            primary_key: pk,
                            first_column: scols[0].name,
                        },
                    ]
                } else {
                    Seq::empty()
                };
                w1 + w2
            }),
        decreases n - j,
    {
        let ghost old_warnings = warnings@.map_values(|w: Warning| w@);
        let column = &cols[j];
        let is_key = str_eq(column.name.as_str(), t.primary_key.as_str());
        let role = if !found && is_key {
            Role::PrimaryKey
        } else {
            Role::NotNull
        };
        proof {
            if !found && is_key {
                assert(spec_resolves_key(scols, pk, j as int));
            } else {
                assert(!spec_resolves_key(scols, pk, j as int));
            }
        }
        if j == 0 && !is_key {
            warnings.push(
                Warning::FirstColumnNotPrimaryKey {
                    column: column.name.clone(),
                    primary_key: t.primary_key.clone(),
                },
            );
            assert(warnings@.map_values(|w: Warning| w@) =~= old_warnings.push(
                SpecWarning::FirstColumnNotPrimaryKey { column: scols[0].name, primary_key: pk },
            ));
        }
        if j > 0 && !found && is_key {
            warnings.push(
                Warning::PrimaryKeyNotFirst {
                    primary_key: t.primary_key.clone(),
                    first_column: cols[0].name.clone(),
                },
            );
            assert(warnings@.map_values(|w: Warning| w@) =~= old_warnings.push(
                SpecWarning::PrimaryKeyNotFirst { primary_key: pk, first_column: scols[0].name },
            ));
        }
        let sql_type = String::from_str(map_column_type(column.source_type.as_str()));
        clauses.push(ColumnClause { name: column.name.clone(), sql_type, role });
        if is_key {
            found = true;
        }
        j = j + 1;
        proof {
            let fnk = scols[0].name != pk;
            let w1: Seq<SpecWarning> = if fnk {
                seq![
                    SpecWarning::FirstColumnNotPrimaryKey {
                        column: scols[0].name,
                        primary_key: pk,
                    },
                ]
            } else {
                Seq::empty()
            };
            let w2: Seq<SpecWarning> = if fnk && found {
                seq![
                    SpecWarning::PrimaryKeyNotFirst {
                        primary_key: pk,
                        first_column: scols[0].name,
                    },
                ]
            } else {
                Seq::empty()
            };
            assert(warnings@.map_values(|w: Warning| w@) =~= w1 + w2);
        }
    }
    let trailing_primary_key = if found {
        None
    } else {
        Some(t.primary_key.clone())
    };
    let statement = TableStatement { name: t.name.clone(), column_clauses: clauses, trailing_primary_key };
    proof {
        assert(statement@.column_clauses =~= spec_clauses(scols, pk));
        assert(spec_key_found(scols, pk) == found);
    }
    Ok((statement, warnings))
}

} // verus!
