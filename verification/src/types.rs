//! The fixed mapping from source column types to SQL types.
//!
//! The mapping is total: a source type with no entry degrades to the
//! generic `TEXT` fallback instead of failing, so translation never
//! aborts on an unrecognized type.

use vstd::prelude::*;
use crate::text::str_eq;

verus! {

/// The SQL type that a source column type maps to. Unknown source types
/// map to the `TEXT` fallback.
pub open spec fn spec_map_column_type(t: Seq<char>) -> Seq<char> {
    if t == "Uuid"@ {
        "UUID"@
    } else if t == "Varchar"@ {
        "VARCHAR"@
    } else if t == "Int4"@ {
        "INT"@
    } else if t == "Int2"@ {
        "SMALLINT"@
    } else if t == "Int8"@ {
        "BIGINT"@
    } else if t == "Text"@ {
        "TEXT"@
    } else if t == "Bool"@ {
        "BOOLEAN"@
    } else if t == "Float4"@ {
        "REAL"@
    } else if t == "Float8"@ {
        "DOUBLE PRECISION"@
    } else if t == "Timestamp"@ {
        "TIMESTAMP"@
    } else if t == "Date"@ {
        "DATE"@
    } else if t == "Time"@ {
        "TIME"@
    } else if t == "Interval"@ {
        "INTERVAL"@
    } else if t == "DateTime"@ {
        "DATE"@
    } else if t == "Bytea"@ {
        "BYTEA"@
    } else if t == "Array<Text>"@ {
        "TEXT[]"@
    } else if t == "Array<Uuid>"@ {
        "UUID[]"@
    } else if t == "Array<Int8>"@ {
        "BIGINT[]"@
    } else if t == "Array<Int4>"@ {
        "INT[]"@
    } else if t == "Array<Int2>"@ {
        "SMALLINT[]"@
    } else if t == "Array<Bool>"@ {
        "BOOLEAN[]"@
    } else {
        "TEXT"@
    }
}

/// Maps a source column type to its SQL type.
pub fn map_column_type(diesel_type: &str) -> (r: &str)
    ensures
        r@ == spec_map_column_type(diesel_type@),
{
    if str_eq(diesel_type, "Uuid") {
        "UUID"
    } else if str_eq(diesel_type, "Varchar") {
        "VARCHAR"
    } else if str_eq(diesel_type, "Int4") {
        "INT"
    } else if str_eq(diesel_type, "Int2") {
        "SMALLINT"
    } else if str_eq(diesel_type, "Int8") {
        "BIGINT"
    } else if str_eq(diesel_type, "Text") {
        "TEXT"
    } else if str_eq(diesel_type, "Bool") {
        "BOOLEAN"
    } else if str_eq(diesel_type, "Float4") {
        "REAL"
    } else if str_eq(diesel_type, "Float8") {
        "DOUBLE PRECISION"
    } else if str_eq(diesel_type, "Timestamp") {
        "TIMESTAMP"
    } else if str_eq(diesel_type, "Date") {
        "DATE"
    } else if str_eq(diesel_type, "Time") {
        "TIME"
    } else if str_eq(diesel_type, "Interval") {
        "INTERVAL"
    } else if str_eq(diesel_type, "DateTime") {
        "DATE"
    } else if str_eq(diesel_type, "Bytea") {
        "BYTEA"
    } else if str_eq(diesel_type, "Array<Text>") {
        "TEXT[]"
    } else if str_eq(diesel_type, "Array<Uuid>") {
        "UUID[]"
    } else if str_eq(diesel_type, "Array<Int8>") {
        "BIGINT[]"
    } else if str_eq(diesel_type, "Array<Int4>") {
        "INT[]"
    } else if str_eq(diesel_type, "Array<Int2>") {
        "SMALLINT[]"
    } else if str_eq(diesel_type, "Array<Bool>") {
        "BOOLEAN[]"
    } else {
        "TEXT"
    }
}

/// The type mapping is total: every source type string, known or unknown,
/// maps to a non-empty SQL type, so translation never fails on a type.
pub proof fn lemma_type_mapping_total(t: Seq<char>)
    ensures
        spec_map_column_type(t).len() > 0,
{
    reveal_strlit("UUID");
    reveal_strlit("VARCHAR");
    reveal_strlit("INT");
    reveal_strlit("SMALLINT");
    reveal_strlit("BIGINT");
    reveal_strlit("TEXT");
    reveal_strlit("BOOLEAN");
    reveal_strlit("REAL");
    reveal_strlit("DOUBLE PRECISION");
    reveal_strlit("TIMESTAMP");
    reveal_strlit("DATE");
    reveal_strlit("TIME");
    reveal_strlit("INTERVAL");
    reveal_strlit("BYTEA");
    reveal_strlit("TEXT[]");
    reveal_strlit("UUID[]");
    reveal_strlit("BIGINT[]");
    reveal_strlit("INT[]");
    reveal_strlit("SMALLINT[]");
    reveal_strlit("BOOLEAN[]");
}

} // verus!
