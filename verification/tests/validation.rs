//! Duplicate-column validation tests.

use diesel_cte_ext::builders::{with_cte, with_recursive, RecursiveParts};
use diesel_cte_ext::columns::Columns;
use diesel_cte_ext::cte::{ensure_unique_columns, CteError, Pg};
use diesel_cte_ext::fragment::SqlFragment;

fn frag(sql: &str) -> SqlFragment {
    SqlFragment::new(sql.to_string())
}

fn cols(names: &[&str]) -> Columns {
    Columns::new(names.iter().map(|n| n.to_string()).collect())
}

#[test]
fn duplicate_column_names_are_rejected() {
    let names = vec!["id".to_string(), "id".to_string()];
    match ensure_unique_columns(&names) {
        Err(err) => {
            assert!(matches!(err, CteError::DuplicateColumn { .. }));
            assert!(err.message().contains("duplicate column name"));
        }
        Ok(()) => panic!("expected duplicate column error"),
    }
}

#[test]
fn distinct_column_names_are_accepted() {
    let names = vec!["id".to_string(), "name".to_string(), "Id".to_string()];
    assert!(ensure_unique_columns(&names).is_ok());
}

#[test]
fn first_duplicate_in_scan_order_is_reported() {
    // Position 2 ("y") repeats before position 3 ("x") does.
    let names = vec![
        "x".to_string(),
        "y".to_string(),
        "y".to_string(),
        "x".to_string(),
    ];
    match ensure_unique_columns(&names) {
        Err(CteError::DuplicateColumn { name }) => assert_eq!(name, "y"),
        Ok(()) => panic!("expected duplicate column error"),
    }
}

#[test]
fn duplicate_error_message_names_the_column() {
    let names = vec!["a".to_string(), "b".to_string(), "a".to_string()];
    let err = ensure_unique_columns(&names).expect_err("duplicate expected");
    assert_eq!(err.message(), "duplicate column name 'a' in CTE");
}

#[test]
fn non_recursive_render_fails_on_duplicate_columns() {
    let query = with_cte::<Pg, _, _>(
        "t",
        cols(&["a", "a"]),
        frag("SELECT 1, 2"),
        frag("SELECT a FROM t"),
    );
    let err = query.render().expect_err("duplicate expected");
    assert_eq!(err.message(), "duplicate column name 'a' in CTE");
}

#[test]
fn recursive_render_fails_on_duplicate_columns() {
    let query = with_recursive::<Pg, _, _, _>(
        "nums",
        cols(&["n", "m", "n"]),
        RecursiveParts::new(
            frag("SELECT 1, 1"),
            frag("SELECT n + 1, m FROM nums"),
            frag("SELECT n FROM nums"),
        ),
    );
    let err = query.render().expect_err("duplicate expected");
    assert!(matches!(err, CteError::DuplicateColumn { ref name } if name == "n"));
}
