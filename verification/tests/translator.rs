use schema_sql::{translate_schema, SchemaError, Warning};

#[test]
fn users_table_with_key_first() {
    let input = "table!{ users (id) { id -> Uuid, name -> Varchar, age -> Int4 } }";
    let (sql, warnings) = translate_schema(input).unwrap();
    assert_eq!(
        sql,
        "CREATE TABLE IF NOT EXISTS users (\n    id UUID PRIMARY KEY,\n    name VARCHAR NOT NULL,\n    age INT NOT NULL\n);\n"
    );
    assert_eq!(warnings.len(), 0);
}

#[test]
fn posts_table_with_key_not_first() {
    let input = "table!{ posts (id) { title -> Text, id -> Uuid } }";
    let (sql, warnings) = translate_schema(input).unwrap();
    assert_eq!(
        sql,
        "CREATE TABLE IF NOT EXISTS posts (\n    title TEXT NOT NULL,\n    id UUID PRIMARY KEY\n);\n"
    );
    assert_eq!(warnings.len(), 2);
    assert!(matches!(
        &warnings[0],
        Warning::FirstColumnNotPrimaryKey { column, primary_key }
            if column == "title" && primary_key == "id"
    ));
    assert!(matches!(
        &warnings[1],
        Warning::PrimaryKeyNotFirst { primary_key, first_column }
            if primary_key == "id" && first_column == "title"
    ));
}

#[test]
fn comments_table_key_missing_gets_trailing_constraint() {
    let input = "table!{ comments (id) { body -> Text, author -> Varchar } }";
    let (sql, warnings) = translate_schema(input).unwrap();
    assert_eq!(
        sql,
        "CREATE TABLE IF NOT EXISTS comments (\n    body TEXT NOT NULL,\n    author VARCHAR NOT NULL,\n    PRIMARY KEY (id)\n);\n"
    );
    assert_eq!(warnings.len(), 1);
    assert!(matches!(
        &warnings[0],
        Warning::FirstColumnNotPrimaryKey { column, primary_key }
            if column == "body" && primary_key == "id"
    ));
}

#[test]
fn empty_input_aborts_with_no_tables_found() {
    assert!(matches!(translate_schema(""), Err(SchemaError::NoTablesFound)));
}

#[test]
fn input_without_tables_aborts_with_no_tables_found() {
    assert!(matches!(
        translate_schema("pub mod something; // no declarations here"),
        Err(SchemaError::NoTablesFound)
    ));
}

#[test]
fn unknown_type_falls_back_to_text() {
    let input = "table!{ things (id) { id -> Uuid, tags -> CustomEnum } }";
    let (sql, warnings) = translate_schema(input).unwrap();
    assert_eq!(
        sql,
        "CREATE TABLE IF NOT EXISTS things (\n    id UUID PRIMARY KEY,\n    tags TEXT NOT NULL\n);\n"
    );
    assert_eq!(warnings.len(), 0);
}

#[test]
fn translation_is_idempotent() {
    let input = "table!{ users (id) { id -> Uuid, name -> Varchar } }\ntable!{ posts (id) { title -> Text, id -> Uuid } }";
    let first = translate_schema(input).unwrap();
    let second = translate_schema(input).unwrap();
    assert_eq!(first.0, second.0);
    assert_eq!(first.0.as_bytes(), second.0.as_bytes());
}

#[test]
fn tables_are_emitted_in_input_order() {
    let input = "table!{ b (id) { id -> Int4 } } table!{ a (id) { id -> Uuid } }";
    let (sql, _) = translate_schema(input).unwrap();
    assert_eq!(
        sql,
        "CREATE TABLE IF NOT EXISTS b (\n    id INT PRIMARY KEY\n);\nCREATE TABLE IF NOT EXISTS a (\n    id UUID PRIMARY KEY\n);\n"
    );
}

#[test]
fn whitespace_between_tokens_is_insignificant() {
    let input = "table!\n{\n    users (id)\n    {\n        id -> Uuid,\n        name -> Varchar\n    }\n}\n";
    let (sql, warnings) = translate_schema(input).unwrap();
    assert_eq!(
        sql,
        "CREATE TABLE IF NOT EXISTS users (\n    id UUID PRIMARY KEY,\n    name VARCHAR NOT NULL\n);\n"
    );
    assert_eq!(warnings.len(), 0);
}

#[test]
fn composite_key_falls_back_to_trailing_constraint() {
    let input = "table!{ follows (follower, followed) { follower -> Uuid, followed -> Uuid } }";
    let (sql, _) = translate_schema(input).unwrap();
    assert_eq!(
        sql,
        "CREATE TABLE IF NOT EXISTS follows (\n    follower UUID NOT NULL,\n    followed UUID NOT NULL,\n    PRIMARY KEY (follower, followed)\n);\n"
    );
}

#[test]
fn first_key_occurrence_wins_later_duplicates_stay_not_null() {
    let input = "table!{ t (id) { x -> Int4, id -> Uuid, id -> Text } }";
    let (sql, _) = translate_schema(input).unwrap();
    assert_eq!(
        sql,
        "CREATE TABLE IF NOT EXISTS t (\n    x INT NOT NULL,\n    id UUID PRIMARY KEY,\n    id TEXT NOT NULL\n);\n"
    );
}

#[test]
fn table_with_no_columns_aborts_with_no_columns_found() {
    let input = "table!{ t (id) { , } }";
    assert!(matches!(translate_schema(input), Err(SchemaError::NoColumnsFound)));
}

#[test]
fn no_columns_error_aborts_whole_run_despite_good_table() {
    let input = "table!{ good (id) { id -> Uuid } } table!{ bad (id) { , } }";
    assert!(matches!(translate_schema(input), Err(SchemaError::NoColumnsFound)));
}

#[test]
fn empty_braces_do_not_match_a_table() {
    let input = "table!{ t (id) {} }";
    assert!(matches!(translate_schema(input), Err(SchemaError::NoTablesFound)));
}

#[test]
fn array_type_is_mapped_in_context() {
    let input = "table!{ posts (id) { id -> Uuid, tags -> Array<Text> } }";
    let (sql, _) = translate_schema(input).unwrap();
    assert_eq!(
        sql,
        "CREATE TABLE IF NOT EXISTS posts (\n    id UUID PRIMARY KEY,\n    tags TEXT[] NOT NULL\n);\n"
    );
}
