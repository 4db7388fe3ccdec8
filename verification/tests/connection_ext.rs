//! Tests for the connection-oriented extension trait.

use std::marker::PhantomData;

use diesel_cte_ext::builders::{CteParts, RecursiveParts};
use diesel_cte_ext::columns::Columns;
use diesel_cte_ext::connection_ext::RecursiveCTEExt;
use diesel_cte_ext::cte::{Pg, RecursiveBackend, Sqlite};
use diesel_cte_ext::fragment::SqlFragment;

/// A stand-in for a connection handle: it only fixes the backend.
struct DummyConn<DB>(PhantomData<DB>);

impl<DB> DummyConn<DB> {
    fn new() -> Self {
        DummyConn(PhantomData)
    }
}

impl<DB: RecursiveBackend> RecursiveCTEExt for DummyConn<DB> {
    type Backend = DB;
}

fn normalise_sql(sql: &str) -> String {
    sql.replace('`', "\"")
}

fn frag(sql: &str) -> SqlFragment {
    SqlFragment::new(sql.to_string())
}

fn sample_parts() -> RecursiveParts<SqlFragment, SqlFragment, SqlFragment> {
    RecursiveParts::new(
        frag("SELECT 1"),
        frag("SELECT n + 1 FROM nums WHERE n < 5"),
        frag("SELECT n FROM nums"),
    )
}

fn expected_recursive_sql() -> &'static str {
    "WITH RECURSIVE \"nums\" (\"n\") AS (SELECT 1 UNION ALL SELECT n + 1 FROM nums WHERE n < 5) SELECT n FROM nums"
}

#[test]
fn sqlite_backend_builds_recursive_sql() {
    let conn = DummyConn::<Sqlite>::new();
    let query = conn.with_recursive(
        "nums",
        Columns::new(vec!["n".to_string()]),
        sample_parts(),
    );
    let sql = normalise_sql(&query.render().expect("render").sql);
    assert_eq!(sql, expected_recursive_sql());
}

#[test]
fn sqlite_backend_builds_cte_sql() {
    let conn = DummyConn::<Sqlite>::new();
    let query = conn.with_cte(
        "seed",
        Columns::new(vec!["value".to_string()]),
        CteParts::new(frag("SELECT 42"), frag("SELECT value FROM seed")),
    );
    let sql = normalise_sql(&query.render().expect("render").sql);
    assert_eq!(
        sql,
        "WITH \"seed\" (\"value\") AS (SELECT 42) SELECT value FROM seed"
    );
}

#[test]
fn postgres_backend_builds_recursive_sql() {
    let conn = DummyConn::<Pg>::new();
    let query = conn.with_recursive(
        "nums",
        Columns::new(vec!["n".to_string()]),
        sample_parts(),
    );
    let sql = normalise_sql(&query.render().expect("render").sql);
    assert_eq!(sql, expected_recursive_sql());
}
