//! Rendering: turns one translated table statement into its SQL text.
//!
//! The rendered text is `CREATE TABLE IF NOT EXISTS <name> (` on its own
//! line, then one indented clause per column, comma-separated with one
//! clause per line, optionally followed by the trailing `PRIMARY KEY`
//! constraint on its own line, and `);` to close.

use vstd::prelude::*;
use crate::translate::{SpecClause, SpecStatement, ColumnClause, TableStatement, Role};
use vstd::string::StringExecFns;

verus! {

/// The text of a clause's role.
pub open spec fn spec_role_text(r: Role) -> Seq<char> {
    match r {
        Role::PrimaryKey => "PRIMARY KEY"@,
        Role::NotNull => "NOT NULL"@,
    }
}

/// The text of one indented column clause.
pub open spec fn spec_clause_text(c: SpecClause) -> Seq<char> {
    "    "@ + c.name + " "@ + c.sql_type + " "@ + spec_role_text(c.role)
}

/// The text of the clauses from index `i` on, each preceded by a comma
/// and a line break.
pub open spec fn spec_rest_clauses_text(cs: Seq<SpecClause>, i: int) -> Seq<char>
    decreases cs.len() - i,
{
    if i < 0 || i >= cs.len() {
        Seq::empty()
    } else {
        ",\n"@ + spec_clause_text(cs[i]) + spec_rest_clauses_text(cs, i + 1)
    }
}

/// The full text of one `CREATE TABLE` statement.
pub open spec fn spec_statement_text(st: SpecStatement) -> Seq<char> {
    "CREATE TABLE IF NOT EXISTS "@ + st.name + " (\n"@ + (if st.column_clauses.len() > 0 {
        spec_clause_text(st.column_clauses[0]) + spec_rest_clauses_text(st.column_clauses, 1)
    } else {
        Seq::empty()
    }) + (match st.trailing_primary_key {
        Some(k) => ",\n    PRIMARY KEY ("@ + k + ")"@,
        None => Seq::empty(),
    }) + "\n);\n"@
}

/// Appends the text of one column clause.
fn append_clause(out: &mut String, c: &ColumnClause)
    ensures
        final(out)@ == old(out)@ + spec_clause_text(c@),
{
    out.append("    ");
    out.append(c.name.as_str());
    out.append(" ");
    out.append(c.sql_type.as_str());
    out.append(" ");
    match c.role {
        Role::PrimaryKey => out.append("PRIMARY KEY"),
        Role::NotNull => out.append("NOT NULL"),
    }
    assert(final(out)@ =~= old(out)@ + spec_clause_text(c@));
}

/// Renders one table statement as SQL text.
pub fn render_statement(st: &TableStatement) -> (out: String)
    ensures
        out@ == spec_statement_text(st@),
{
    let ghost cs = st@.column_clauses;
    let mut out = String::from_str("CREATE TABLE IF NOT EXISTS ");
    out.append(st.name.as_str());
    out.append(" (\n");
    let ghost header = out@;
    let n = st.column_clauses.len();
    if n > 0 {
        append_clause(&mut out, &st.column_clauses[0]);
        let ghost goal = header + spec_clause_text(cs[0]) + spec_rest_clauses_text(cs, 1);
        let mut i: usize = 1;
        while i < n
            invariant
                1 <= i <= n,
                n == st.column_clauses.len(),
                cs == st@.column_clauses,
                goal == header + spec_clause_text(cs[0]) + spec_rest_clauses_text(cs, 1),
                out@ + spec_rest_clauses_text(cs, i as int) == goal,
            decreases n - i,
        {
            let ghost before = out@;
            out.append(",\n");
            append_clause(&mut out, &st.column_clauses[i]);
            proof {
                assert(out@ =~= before + (",\n"@ + spec_clause_text(cs[i as int])));
                assert(out@ + spec_rest_clauses_text(cs, i as int + 1) =~= before
                    + spec_rest_clauses_text(cs, i as int));
            }
            i = i + 1;
        }
        proof {
            assert(spec_rest_clauses_text(cs, n as int) =~= Seq::<char>::empty());
            assert(out@ =~= goal);
        }
    }
    match &st.trailing_primary_key {
        Some(k) => {
            out.append(",\n    PRIMARY KEY (");
            out.append(k.as_str());
            out.append(")");
        },
        None => {},
    }
    out.append("\n);\n");
    proof {
        assert(out@ =~= spec_statement_text(st@));
    }
    out
}

} // verus!
