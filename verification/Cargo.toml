[package]
name = "schema_sql"
version = "0.1.0"
edition = "2021"
publish = false
