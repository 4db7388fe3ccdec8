//! Extension trait exposing `with_recursive` and `with_cte` on
//! connection-like types.
//!
//! Both helpers delegate to the builders module whilst inferring the
//! backend from the implementing type, so callers never pass the backend
//! explicitly.

use vstd::prelude::*;

use crate::builders::{with_cte, with_recursive, CteParts, RecursiveParts};
use crate::columns::Columns;
use crate::cte::{RecursiveBackend, WithCte, WithRecursive};
use crate::fragment::Renderable;

verus! {

/// Extension trait providing convenient `with_recursive` and `with_cte`
/// methods on connection-like types.
///
/// A handle to a database fixes its backend, so an implementor names it
/// once as [`RecursiveCTEExt::Backend`] and callers never spell it out.
/// The trait is meant to be implemented for connection handles, which
/// live outside this crate; both methods come with bodies, so an
/// implementation only chooses the backend.
pub trait RecursiveCTEExt {
    /// Backend associated with the connection.
    type Backend: RecursiveBackend;

    /// Build a [`WithRecursive`] query for this connection's backend.
    fn with_recursive<Seed: Renderable, Step: Renderable, Body: Renderable>(
        &self,
        cte_name: &str,
        columns: Columns,
        parts: RecursiveParts<Seed, Step, Body>,
    ) -> (r: WithRecursive<Self::Backend, Seed, Step, Body>)
        ensures
            r.cte_name@ == cte_name@,
            r.columns == columns,
            r.seed == parts.seed,
            r.step == parts.step,
            r.body == parts.body,
    {
        with_recursive::<Self::Backend, Seed, Step, Body>(cte_name, columns, parts)
    }

    /// Build a [`WithCte`] query for this connection's backend.
    fn with_cte<Cte: Renderable, Body: Renderable>(
        &self,
        cte_name: &str,
        columns: Columns,
        parts: CteParts<Cte, Body>,
    ) -> (r: WithCte<Self::Backend, Cte, Body>)
        ensures
            r.cte_name@ == cte_name@,
            r.columns == columns,
            r.cte == parts.cte,
            r.body == parts.body,
    {
        with_cte::<Self::Backend, Cte, Body>(cte_name, columns, parts.cte, parts.body)
    }
}

} // verus!
