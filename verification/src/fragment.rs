//! SQL fragments and the transparent fragment wrapper.
//!
//! A fragment is an opaque, pre-built piece of SQL with a statically known
//! result shape: the composer never parses it, it only concatenates its
//! text and carries its bind parameters along in order.  [`Renderable`] is
//! the capability the composer requires of every fragment; [`SqlFragment`]
//! is the plain text-and-binds fragment, and [`QueryPart`] lifts any
//! fragment into the composer's expected shape without changing how it
//! renders.

use vstd::prelude::*;

verus! {

/// The rendering capability of a query fragment: it can produce its SQL
/// text and its bind parameter values, both pinned exactly by the
/// fragment's own specification.
pub trait Renderable: Sized {
    /// The SQL text this fragment renders to.
    spec fn sql_spec(&self) -> Seq<char>;

    /// The bind parameter values of this fragment, in the order their
    /// placeholders occur in the text.
    spec fn binds_spec(&self) -> Seq<Seq<char>>;

    /// Render the fragment's SQL text.
    fn sql_text(&self) -> (r: String)
        ensures
            r@ == self.sql_spec(),
    ;

    /// The fragment's bind parameter values, in placeholder order.
    fn bind_params(&self) -> (r: Vec<String>)
        ensures
            r.deep_view() == self.binds_spec(),
    ;
}

/// A plain SQL fragment: raw text plus the values bound to its
/// placeholders, in the order the placeholders occur.
#[derive(Debug, Clone)]
pub struct SqlFragment {
    /// The fragment's SQL text, taken as is.
    pub sql: String,
    /// The values bound to the fragment's placeholders, in textual order.
    pub binds: Vec<String>,
}

impl SqlFragment {
    /// A fragment of raw SQL text with no bind parameters.
    pub fn new(sql: String) -> (r: SqlFragment)
        ensures
            r.sql_spec() == sql@,
            r.binds_spec() == Seq::<Seq<char>>::empty(),
    {
        let r = SqlFragment { sql, binds: Vec::new() };
        proof {
            assert(r.binds.deep_view() =~= Seq::<Seq<char>>::empty());
        }
        r
    }

    /// A fragment of raw SQL text together with its bind parameter values.
    pub fn with_binds(sql: String, binds: Vec<String>) -> (r: SqlFragment)
        ensures
            r.sql_spec() == sql@,
            r.binds_spec() == binds.deep_view(),
    {
        SqlFragment { sql, binds }
    }
}

impl Renderable for SqlFragment {
    open spec fn sql_spec(&self) -> Seq<char> {
        self.sql@
    }

    open spec fn binds_spec(&self) -> Seq<Seq<char>> {
        self.binds.deep_view()
    }

    fn sql_text(&self) -> (r: String) {
        self.sql.clone()
    }

    fn bind_params(&self) -> (r: Vec<String>) {
        let r = self.binds.clone();
        proof {
            broadcast use vstd::std_specs::vec::vec_clone_deep_view_proof;

        }
        r
    }
}

/// Wrapper that lifts any fragment into the shape the composer's generic
/// parameters expect.
///
/// The wrapper is purely structural: it renders to exactly the text and
/// bind parameters of the value it wraps, injecting nothing and reordering
/// nothing.
#[derive(Debug, Clone)]
pub struct QueryPart<T>(pub T);

impl<T: Renderable> QueryPart<T> {
    /// Wrap a fragment for use with the CTE builders.
    pub fn new(expr: T) -> (r: QueryPart<T>)
        ensures
            r.0 == expr,
    {
        QueryPart(expr)
    }
}

impl<T: Renderable> Renderable for QueryPart<T> {
    open spec fn sql_spec(&self) -> Seq<char> {
        self.0.sql_spec()
    }

    open spec fn binds_spec(&self) -> Seq<Seq<char>> {
        self.0.binds_spec()
    }

    fn sql_text(&self) -> (r: String) {
        self.0.sql_text()
    }

    fn bind_params(&self) -> (r: Vec<String>) {
        self.0.bind_params()
    }
}

impl<T: Renderable> From<T> for QueryPart<T> {
    /// Wrap a fragment; identical to [`QueryPart::new`].
    fn from(expr: T) -> (r: QueryPart<T>) {
        QueryPart(expr)
    }
}

impl<T: Renderable> vstd::std_specs::convert::FromSpecImpl<T> for QueryPart<T> {
    open spec fn obeys_from_spec() -> bool {
        true
    }

    open spec fn from_spec(expr: T) -> QueryPart<T> {
        QueryPart(expr)
    }
}

/// Wrapping a fragment does not change how it renders: the wrapper's SQL
/// text and bind parameters are exactly those of the wrapped fragment.
pub proof fn lemma_query_part_transparent<T: Renderable>(p: QueryPart<T>)
    ensures
        p.sql_spec() == p.0.sql_spec(),
        p.binds_spec() == p.0.binds_spec(),
{
}

} // verus!
