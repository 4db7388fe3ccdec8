//! Column alias lists for a CTE.

use vstd::prelude::*;

verus! {

/// An ordered list of column alias names for a CTE.
///
/// An empty list is valid and means "let the column names be inferred from
/// the inner query"; rendering then omits the parenthesized alias clause
/// entirely.  A non-empty list must hold pairwise distinct names (exact,
/// case-sensitive comparison); duplicates are rejected at render time.
#[derive(Debug, Clone)]
pub struct Columns {
    /// The alias names, in the order they will be rendered.
    pub names: Vec<String>,
}

impl View for Columns {
    type V = Seq<Seq<char>>;

    open spec fn view(&self) -> Seq<Seq<char>> {
        self.names.deep_view()
    }
}

impl Columns {
    /// Bundle a list of column alias names, in rendering order.
    pub fn new(names: Vec<String>) -> (r: Columns)
        ensures
            r@ == names.deep_view(),
    {
        Columns { names }
    }
}

} // verus!
