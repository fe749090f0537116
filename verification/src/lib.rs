//! Translates a declarative table-definition notation into SQL
//! `CREATE TABLE` migration statements.
//!
//! The input text lists tables of the form
//! `table! { name (primary_key) { column -> Type, ... } }`.
//! The library scans the text for table declarations, scans each table's
//! column list, maps the declared column types to SQL types, decides where
//! the primary-key designation goes, and renders one `CREATE TABLE IF NOT
//! EXISTS` statement per table, in input order.
//!
//! The whole translation is a pure function of the input text: it aborts
//! with an error when the text holds no table declaration or a table holds
//! no column declaration, and otherwise returns the full migration text
//! together with the non-fatal primary-key placement diagnostics.

use vstd::prelude::*;

mod chars;
pub mod columns;
pub mod emit;
pub mod extract;
mod scan;
mod text;
pub mod translate;
pub mod types;

pub use columns::{ColumnDecl, scan_columns};
pub use extract::{TableDecl, scan_tables};
pub use translate::{
    ColumnClause, Role, SchemaError, TableStatement, Warning, translate_table,
};
pub use types::map_column_type;
pub use emit::render_statement;

use crate::extract::{SpecTable, spec_tables_from};
use crate::translate::{SpecWarning, spec_translate_table};
use crate::emit::spec_statement_text;
use vstd::string::StringExecFns;

verus! {

/// The concatenated statement texts and diagnostics of the tables from
/// index `i` on, or the first fatal error among them.
pub open spec fn spec_render_tables(ts: Seq<SpecTable>, i: int) -> Result<
    (Seq<char>, Seq<SpecWarning>),
    SchemaError,
>
    decreases ts.len() - i,
{
    if i < 0 || i >= ts.len() {
        Ok((Seq::empty(), Seq::empty()))
    } else {
        match spec_translate_table(ts[i]) {
            Err(e) => Err(e),
            Ok(p) => match spec_render_tables(ts, i + 1) {
                Err(e) => Err(e),
                Ok(q) => Ok((spec_statement_text(p.0) + q.0, p.1 + q.1)),
            },
        }
    }
}

/// The translation of a whole schema text: one rendered statement per
/// table declaration, in input order, with the collected diagnostics; or
/// the error that aborts the run. A text with no table declaration is a
/// fatal error, as is a table with no column declaration.
pub open spec fn spec_translate_schema(s: Seq<char>) -> Result<
    (Seq<char>, Seq<SpecWarning>),
    SchemaError,
> {
    let ts = spec_tables_from(s, 0);
    if ts.len() == 0 {
        Err(SchemaError::NoTablesFound)
    } else {
        spec_render_tables(ts, 0)
    }
}

/// Law: translation is deterministic. Two runs on the same input text
/// yield the same outcome, so running the translator twice produces
/// byte-identical output.
pub proof fn lemma_translation_deterministic(a: Seq<char>, b: Seq<char>)
    requires
        a == b,
    ensures
        spec_translate_schema(a) == spec_translate_schema(b),
{
}

/// Translates a whole schema text into SQL migration text.
///
/// Returns the concatenated `CREATE TABLE IF NOT EXISTS` statements, one
/// per table declaration and in input order, together with the non-fatal
/// primary-key placement diagnostics; or the fatal error when the text
/// holds no table declaration or some table holds no column declaration.
pub fn translate_schema(input: &str) -> (r: Result<(String, Vec<Warning>), SchemaError>)
    ensures
        match r {
            Ok(p) => {
                &&& spec_translate_schema(input@) matches Ok(q)
                &&& p.0@ == q.0
                &&& p.1@.map_values(|w: Warning| w@) == q.1
            },
            Err(e) => spec_translate_schema(input@) == Err::<
                (Seq<char>, Seq<SpecWarning>),
                SchemaError,
            >(e),
        },
{
    let tables = scan_tables(input);
    let ghost ts = tables@.map_values(|t: TableDecl| t@);
    proof {
        assert(ts =~= spec_tables_from(input@, 0));
    }
    if tables.len() == 0 {
        return Err(SchemaError::NoTablesFound);
    }
    let n = tables.len();
    let mut out = String::new();
    let mut warnings: Vec<Warning> = Vec::new();
    let mut i: usize = 0;
    proof {
        assert(out@ + spec_render_tables(ts, 0)->Ok_0.0 =~= spec_render_tables(ts, 0)->Ok_0.0);
        assert(warnings@.map_values(|w: Warning| w@) + spec_render_tables(ts, 0)->Ok_0.1
            =~= spec_render_tables(ts, 0)->Ok_0.1);
    }
    while i < n
        invariant
            i <= n,
            0 < n == tables.len(),
            ts == tables@.map_values(|t: TableDecl| t@),
            ts == spec_tables_from(input@, 0),
            ts.len() == n,
            spec_render_tables(ts, 0) == (match spec_render_tables(ts, i as int) {
                Ok(q) => Ok::<(Seq<char>, Seq<SpecWarning>), SchemaError>(
                    (out@ + q.0, warnings@.map_values(|w: Warning| w@) + q.1),
                ),
                Err(e) => Err(e),
            }),
        decreases n - i,
    {
        let ghost old_out = out@;
        let ghost old_ws = warnings@.map_values(|w: Warning| w@);
        match translate_table(&tables[i]) {
            Err(e) => {
                proof {
                    assert(spec_render_tables(ts, i as int) == Err::<
                        (Seq<char>, Seq<SpecWarning>),
                        SchemaError,
                    >(e));
                }
                return Err(e);
            },
            Ok((statement, mut ws)) => {
                let text = render_statement(&statement);
                out.append(text.as_str());
                warnings.append(&mut ws);
                proof {
                    let p = spec_translate_table(ts[i as int])->Ok_0;
                    assert(out@ =~= old_out + spec_statement_text(p.0));
                    assert(warnings@.map_values(|w: Warning| w@) =~= old_ws + p.1);
                    if spec_render_tables(ts, i as int + 1) is Ok {
                        let q = spec_render_tables(ts, i as int + 1)->Ok_0;
                        assert(out@ + q.0 =~= old_out + (spec_statement_text(p.0) + q.0));
                        assert(warnings@.map_values(|w: Warning| w@) + q.1 =~= old_ws + (p.1
                            + q.1));
                    }
                }
                i = i + 1;
            },
        }
    }
    proof {
        assert(spec_render_tables(ts, n as int) == Ok::<
            (Seq<char>, Seq<SpecWarning>),
            SchemaError,
        >((Seq::empty(), Seq::empty())));
        assert(out@ + Seq::<char>::empty() =~= out@);
        assert(warnings@.map_values(|w: Warning| w@) + Seq::<SpecWarning>::empty()
            =~= warnings@.map_values(|w: Warning| w@));
    }
    Ok((out, warnings))
}

} // verus!
