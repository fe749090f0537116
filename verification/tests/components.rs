use schema_sql::{
    map_column_type, render_statement, scan_columns, scan_tables, translate_table, ColumnClause,
    Role, TableDecl, TableStatement,
};

#[test]
fn type_mapping_table_is_reproduced_exactly() {
    assert_eq!(map_column_type("Uuid"), "UUID");
    assert_eq!(map_column_type("Varchar"), "VARCHAR");
    assert_eq!(map_column_type("Int4"), "INT");
    assert_eq!(map_column_type("Int2"), "SMALLINT");
    assert_eq!(map_column_type("Int8"), "BIGINT");
    assert_eq!(map_column_type("Text"), "TEXT");
    assert_eq!(map_column_type("Bool"), "BOOLEAN");
    assert_eq!(map_column_type("Float4"), "REAL");
    assert_eq!(map_column_type("Float8"), "DOUBLE PRECISION");
    assert_eq!(map_column_type("Timestamp"), "TIMESTAMP");
    assert_eq!(map_column_type("Date"), "DATE");
    assert_eq!(map_column_type("Time"), "TIME");
    assert_eq!(map_column_type("Interval"), "INTERVAL");
    assert_eq!(map_column_type("DateTime"), "DATE");
    assert_eq!(map_column_type("Bytea"), "BYTEA");
    assert_eq!(map_column_type("Array<Text>"), "TEXT[]");
    assert_eq!(map_column_type("Array<Uuid>"), "UUID[]");
    assert_eq!(map_column_type("Array<Int8>"), "BIGINT[]");
    assert_eq!(map_column_type("Array<Int4>"), "INT[]");
    assert_eq!(map_column_type("Array<Int2>"), "SMALLINT[]");
    assert_eq!(map_column_type("Array<Bool>"), "BOOLEAN[]");
}

#[test]
fn type_mapping_is_total_on_unknown_types() {
    assert_eq!(map_column_type("CustomEnum"), "TEXT");
    assert_eq!(map_column_type(""), "TEXT");
    assert_eq!(map_column_type("uuid"), "TEXT");
    assert_eq!(map_column_type("Array<Foo>"), "TEXT");
    assert_eq!(map_column_type("Array"), "TEXT");
    assert_eq!(map_column_type("TEXT NOT NULL; DROP TABLE"), "TEXT");
}

#[test]
fn scan_tables_captures_name_key_and_columns() {
    let tables = scan_tables("table!{ users (id) { id -> Uuid } }");
    assert_eq!(tables.len(), 1);
    assert_eq!(tables[0].name, "users");
    assert_eq!(tables[0].primary_key, "id");
    assert_eq!(tables[0].raw_columns, "id -> Uuid ");
}

#[test]
fn scan_tables_skips_malformed_declarations() {
    let tables = scan_tables("table!{ broken } table!{ ok (id) { id -> Uuid } }");
    assert_eq!(tables.len(), 1);
    assert_eq!(tables[0].name, "ok");
}

#[test]
fn scan_columns_preserves_order_and_parametrized_types() {
    let columns = scan_columns("a -> Int4, b -> Array<Text>, c -> Bool");
    assert_eq!(columns.len(), 3);
    assert_eq!(columns[0].name, "a");
    assert_eq!(columns[0].source_type, "Int4");
    assert_eq!(columns[1].name, "b");
    assert_eq!(columns[1].source_type, "Array<Text>");
    assert_eq!(columns[2].name, "c");
    assert_eq!(columns[2].source_type, "Bool");
}

#[test]
fn scan_columns_takes_bare_word_when_parameter_is_incomplete() {
    let columns = scan_columns("b -> Array<");
    assert_eq!(columns.len(), 1);
    assert_eq!(columns[0].name, "b");
    assert_eq!(columns[0].source_type, "Array");
}

#[test]
fn scan_columns_finds_nothing_in_plain_text() {
    assert_eq!(scan_columns(" , -> ").len(), 0);
}

#[test]
fn translate_table_emits_one_clause_per_column() {
    let decl = TableDecl {
        name: String::from("users"),
        primary_key: String::from("id"),
        raw_columns: String::from("id -> Uuid, name -> Varchar, age -> Int4"),
    };
    let (statement, warnings) = translate_table(&decl).unwrap();
    assert_eq!(statement.name, "users");
    assert_eq!(statement.column_clauses.len(), 3);
    assert_eq!(statement.column_clauses[0].name, "id");
    assert_eq!(statement.column_clauses[0].sql_type, "UUID");
    assert_eq!(statement.column_clauses[0].role, Role::PrimaryKey);
    assert_eq!(statement.column_clauses[1].role, Role::NotNull);
    assert_eq!(statement.column_clauses[2].role, Role::NotNull);
    assert!(statement.trailing_primary_key.is_none());
    assert_eq!(warnings.len(), 0);
}

#[test]
fn translate_table_sets_trailing_key_when_unresolved() {
    let decl = TableDecl {
        name: String::from("comments"),
        primary_key: String::from("id"),
        raw_columns: String::from("body -> Text"),
    };
    let (statement, _) = translate_table(&decl).unwrap();
    assert!(statement.column_clauses.iter().all(|c| c.role == Role::NotNull));
    assert_eq!(statement.trailing_primary_key.as_deref(), Some("id"));
}

#[test]
fn render_statement_formats_clauses_and_trailing_key() {
    let statement = TableStatement {
        name: String::from("notes"),
        column_clauses: vec![
            ColumnClause {
                name: String::from("body"),
                sql_type: String::from("TEXT"),
                role: Role::NotNull,
            },
        ],
        trailing_primary_key: Some(String::from("id")),
    };
    assert_eq!(
        render_statement(&statement),
        "CREATE TABLE IF NOT EXISTS notes (\n    body TEXT NOT NULL,\n    PRIMARY KEY (id)\n);\n"
    );
}
