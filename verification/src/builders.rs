//! Builder helpers for CTE queries.
//!
//! [`with_recursive`] builds a [`WithRecursive`] query from a name, a
//! column alias list and the [`RecursiveParts`] bundling the seed, step
//! and body fragments; [`with_cte`] builds the non-recursive
//! [`WithCte`] counterpart.

use vstd::prelude::*;

use crate::columns::Columns;
use crate::cte::{RecursiveBackend, SqlBackend, WithCte, WithRecursive};
use crate::fragment::Renderable;

verus! {

/// Query fragments used by a recursive CTE.
#[derive(Debug, Clone)]
pub struct RecursiveParts<Seed, Step, Body> {
    /// Seed query producing the first row(s) of the CTE.
    pub seed: Seed,
    /// Step query referencing the previous iteration's result.
    pub step: Step,
    /// Query consuming the CTE.
    pub body: Body,
}

impl<Seed, Step, Body> RecursiveParts<Seed, Step, Body> {
    /// Bundle the seed, step and body queries together.
    pub fn new(seed: Seed, step: Step, body: Body) -> (r: Self)
        ensures
            r.seed == seed,
            r.step == step,
            r.body == body,
    {
        RecursiveParts { seed, step, body }
    }
}

/// The defining and consuming fragments handed to `with_cte`.
#[derive(Debug, Clone)]
pub struct CteParts<Cte, Body> {
    /// Query defining the CTE.
    pub cte: Cte,
    /// Query consuming the CTE.
    pub body: Body,
}

impl<Cte, Body> CteParts<Cte, Body> {
    /// Bundle the defining and consuming queries together.
    pub fn new(cte: Cte, body: Body) -> (r: Self)
        ensures
            r.cte == cte,
            r.body == body,
    {
        CteParts { cte, body }
    }
}

/// Build a recursive CTE query.
///
/// No validation happens here: the column alias list is checked when the
/// entity is rendered.  The backend must be a member of the
/// recursive-capability registry, which the `DB: RecursiveBackend` bound
/// checks at compile time.
pub fn with_recursive<DB, Seed, Step, Body>(
    cte_name: &str,
    columns: Columns,
    parts: RecursiveParts<Seed, Step, Body>,
) -> (r: WithRecursive<DB, Seed, Step, Body>) where
    DB: RecursiveBackend,
    Seed: Renderable,
    Step: Renderable,
    Body: Renderable,

    ensures
        r.cte_name@ == cte_name@,
        r.columns == columns,
        r.seed == parts.seed,
        r.step == parts.step,
        r.body == parts.body,
{
    WithRecursive {
        cte_name: String::from_str(cte_name),
        columns,
        seed: parts.seed,
        step: parts.step,
        body: parts.body,
        backend: core::marker::PhantomData,
    }
}

/// Build a non-recursive CTE query.
///
/// No validation happens here: the column alias list is checked when the
/// entity is rendered.
pub fn with_cte<DB, Cte, Body>(cte_name: &str, columns: Columns, cte: Cte, body: Body) -> (r:
    WithCte<DB, Cte, Body>) where DB: SqlBackend, Cte: Renderable, Body: Renderable
    ensures
        r.cte_name@ == cte_name@,
        r.columns == columns,
        r.cte == cte,
        r.body == body,
{
    WithCte { cte_name: String::from_str(cte_name), columns, cte, body, backend: core::marker::PhantomData }
}

} // verus!
