//! Core CTE types: backends, column validation, and rendering.
//!
//! [`WithRecursive`] represents recursive CTEs and [`WithCte`] represents
//! non-recursive CTEs; both hold opaque SQL fragments and render to a
//! complete statement.  [`RecursiveBackend`] marks the backends that
//! support `WITH RECURSIVE`.

use vstd::prelude::*;

use crate::columns::Columns;
use crate::fragment::Renderable;

verus! {

/// A failure while rendering a CTE.
///
/// The only render-time failure this crate itself produces is a duplicate
/// column alias; fragments are opaque, already-built SQL and cannot fail.
#[derive(Debug, Clone)]
pub enum CteError {
    /// A column alias occurred twice in the alias list.  `name` is the
    /// first repeated name in left-to-right scan order.
    DuplicateColumn {
        /// The offending alias, exactly as it was given.
        name: String,
    },
}

impl CteError {
    /// The column name carried by the error.
    pub open spec fn name_spec(&self) -> Seq<char> {
        match self {
            CteError::DuplicateColumn { name } => name@,
        }
    }

    /// A human-readable description of the failure.
    pub fn message(&self) -> (r: String)
        ensures
            r@ == "duplicate column name '"@ + self.name_spec() + "' in CTE"@,
    {
        match self {
            CteError::DuplicateColumn { name } => {
                let mut m = String::new();
                m.append("duplicate column name '");
                m.append(name.as_str());
                m.append("' in CTE");
                proof {
                    assert(m@ =~= "duplicate column name '"@ + self.name_spec() + "' in CTE"@);
                }
                m
            },
        }
    }
}

/// `s` with every occurrence of the quote character `q` doubled.
pub open spec fn spec_escape_quote(q: char, s: Seq<char>) -> Seq<char>
    decreases s.len(),
{
    if s.len() == 0 {
        Seq::empty()
    } else {
        (if s[0] == q {
            seq![q, q]
        } else {
            seq![s[0]]
        }) + spec_escape_quote(q, s.drop_first())
    }
}

/// `name` wrapped in the quote character `q`, with inner occurrences of
/// `q` doubled.
pub open spec fn spec_quote_identifier(q: char, name: Seq<char>) -> Seq<char> {
    seq![q] + spec_escape_quote(q, name) + seq![q]
}

/// The quoted names, comma-separated, in input order.
pub open spec fn spec_joined_identifiers(q: char, names: Seq<Seq<char>>) -> Seq<char>
    decreases names.len(),
{
    if names.len() == 0 {
        Seq::empty()
    } else if names.len() == 1 {
        spec_quote_identifier(q, names[0])
    } else {
        spec_joined_identifiers(q, names.drop_last()) + ", "@ + spec_quote_identifier(
            q,
            names.last(),
        )
    }
}

/// The parenthesized column alias clause.  An empty alias list produces no
/// clause at all, not an empty pair of parentheses.
pub open spec fn spec_column_clause(q: char, names: Seq<Seq<char>>) -> Seq<char> {
    if names.len() == 0 {
        Seq::empty()
    } else {
        " ("@ + spec_joined_identifiers(q, names) + ")"@
    }
}

/// Relies on diesel's `SqliteQueryBuilder::push_identifier`: it wraps the
/// identifier in backticks, doubling every backtick inside it, and always
/// returns `Ok`.
#[verifier::external_body]
fn quote_identifier_sqlite(name: &str) -> (r: String)
    ensures
        r@ == spec_quote_identifier('`', name@),
{
    let mut builder = diesel::sqlite::SqliteQueryBuilder::new();
    let _ = diesel::query_builder::QueryBuilder::push_identifier(&mut builder, name);
    diesel::query_builder::QueryBuilder::finish(builder)
}

/// Relies on diesel's `PgQueryBuilder::push_identifier`: it wraps the
/// identifier in double quotes, doubling every double quote inside it, and
/// always returns `Ok`.
#[verifier::external_body]
fn quote_identifier_pg(name: &str) -> (r: String)
    ensures
        r@ == spec_quote_identifier('"', name@),
{
    let mut builder = diesel::pg::PgQueryBuilder::new();
    let _ = diesel::query_builder::QueryBuilder::push_identifier(&mut builder, name);
    diesel::query_builder::QueryBuilder::finish(builder)
}

/// A SQL backend the composer can render against.
///
/// A backend fixes the identifier-quoting convention: `quote_char` is the
/// character that wraps identifiers, and occurrences of it inside a name
/// are escaped by doubling.
pub trait SqlBackend: Sized {
    /// The character this backend wraps identifiers in.
    spec fn quote_char() -> char;

    /// Quote `name` for use as an identifier in this backend's SQL.
    fn quote_identifier(name: &str) -> (r: String)
        ensures
            r@ == spec_quote_identifier(Self::quote_char(), name@),
    ;
}

/// Marker trait for backends that support `WITH RECURSIVE`.
///
/// Membership is checked at compile time: a recursive CTE can only be
/// built for a backend that implements this trait, so "recursive query on
/// an incapable backend" is a type error, never a runtime failure.
pub trait RecursiveBackend: SqlBackend {}

/// The SQLite backend.  Identifiers are quoted with backticks.
pub struct Sqlite;

impl SqlBackend for Sqlite {
    open spec fn quote_char() -> char {
        '`'
    }

    fn quote_identifier(name: &str) -> (r: String) {
        quote_identifier_sqlite(name)
    }
}

impl RecursiveBackend for Sqlite {}

/// The PostgreSQL backend.  Identifiers are quoted with double quotes.
pub struct Pg;

impl SqlBackend for Pg {
    open spec fn quote_char() -> char {
        '"'
    }

    fn quote_identifier(name: &str) -> (r: String) {
        quote_identifier_pg(name)
    }
}

impl RecursiveBackend for Pg {}

/// Whether the name at position `j` already occurred earlier in the list.
pub open spec fn dup_at(names: Seq<Seq<char>>, j: int) -> bool {
    exists|i: int| 0 <= i < j && names[i] == names[j]
}

/// All names in the list are pairwise distinct.
pub open spec fn all_distinct(names: Seq<Seq<char>>) -> bool {
    forall|i: int, j: int| 0 <= i < j < names.len() ==> names[i] != names[j]
}

/// The name at position `j` is the first repetition found when scanning
/// left to right: it occurred earlier, and no position before `j` did.
pub open spec fn is_first_dup(names: Seq<Seq<char>>, j: int) -> bool {
    &&& 0 <= j < names.len()
    &&& dup_at(names, j)
    &&& forall|k: int| 0 <= k < j ==> !dup_at(names, k)
}

/// Check that no two column names in the list are identical.
///
/// Succeeds exactly when all names are pairwise distinct; otherwise fails
/// with a [`CteError::DuplicateColumn`] naming the first repeated name in
/// left-to-right scan order.  No normalization is applied before the
/// comparison.
pub fn ensure_unique_columns(names: &Vec<String>) -> (r: Result<(), CteError>)
    ensures
        r is Ok <==> all_distinct(names.deep_view()),
        r matches Err(e) ==> exists|j: int|
            #[trigger] is_first_dup(names.deep_view(), j) && e.name_spec() == names.deep_view()[j],
{
    let ghost nv = names.deep_view();
    let mut j: usize = 0;
    while j < names.len()
        invariant
            j <= names.len(),
            nv == names.deep_view(),
            forall|k: int| 0 <= k < j ==> !dup_at(nv, k),
        decreases names.len() - j,
    {
        let mut i: usize = 0;
        while i < j
            invariant
                i <= j < names.len(),
                nv == names.deep_view(),
                forall|k: int| 0 <= k < j ==> !dup_at(nv, k),
                forall|k: int| 0 <= k < i ==> nv[k] != nv[j as int],
            decreases j - i,
        {
            if names[i] == names[j] {
                proof {
                    assert(nv[i as int] == nv[j as int]);
                    assert(dup_at(nv, j as int));
                    assert(is_first_dup(nv, j as int));
                    assert(!all_distinct(nv));
                }
                return Err(CteError::DuplicateColumn { name: names[j].clone() });
            }
            i += 1;
        }
        proof {
            assert(!dup_at(nv, j as int));
        }
        j += 1;
    }
    proof {
        assert forall|i: int, k: int| 0 <= i < k < nv.len() implies nv[i] != nv[k] by {
            assert(!dup_at(nv, k));
        }
    }
    Ok(())
}

/// Validate the column alias list and append its rendered clause to `out`.
///
/// An empty list appends nothing.  A non-empty list with all-distinct
/// names appends ` (`, the names quoted for `DB` and comma-separated in
/// input order, then `)`.  A repeated name fails with the first duplicate
/// in scan order, and `out` is left exactly as it was: a failed render
/// never produces partial text.
pub fn push_identifiers<DB: SqlBackend>(out: &mut String, cols: &Columns) -> (r: Result<
    (),
    CteError,
>)
    ensures
        r is Ok <==> all_distinct(cols@),
        r matches Ok(_) ==> final(out)@ == old(out)@ + spec_column_clause(
            DB::quote_char(),
            cols@,
        ),
        r matches Err(e) ==> final(out)@ == old(out)@ && exists|j: int|
            #[trigger] is_first_dup(cols@, j) && e.name_spec() == cols@[j],
{
    let ghost q = DB::quote_char();
    let ghost nv = cols@;
    if cols.names.len() == 0 {
        proof {
            assert(out@ + spec_column_clause(q, nv) =~= out@);
        }
        return Ok(());
    }
    match ensure_unique_columns(&cols.names) {
        Err(e) => {
            return Err(e);
        },
        Ok(()) => {},
    }
    let ghost out0: Seq<char> = out@;
    out.append(" (");
    let mut i: usize = 0;
    while i < cols.names.len()
        invariant
            i <= cols.names.len(),
            nv == cols@,
            q == DB::quote_char(),
            out@ == out0 + " ("@ + spec_joined_identifiers(q, nv.take(i as int)),
        decreases cols.names.len() - i,
    {
        if i > 0 {
            out.append(", ");
        }
        let quoted = DB::quote_identifier(cols.names[i].as_str());
        out.append(quoted.as_str());
        proof {
            assert(nv.take(i + 1 as int).drop_last() =~= nv.take(i as int));
            assert(nv.take(i + 1 as int).last() == nv[i as int]);
            assert(out@ =~= out0 + " ("@ + spec_joined_identifiers(q, nv.take(i + 1 as int)));
        }
        i += 1;
    }
    out.append(")");
    proof {
        assert(nv.take(nv.len() as int) =~= nv);
        assert(out@ =~= out0 + spec_column_clause(q, nv));
    }
    Ok(())
}

/// The opening of a CTE statement, up to and including ` AS (`: the
/// `WITH` or `WITH RECURSIVE` keyword, the quoted CTE name, and the
/// column alias clause (absent for an empty alias list).
pub open spec fn spec_cte_header(
    q: char,
    recursive: bool,
    name: Seq<char>,
    cols: Seq<Seq<char>>,
) -> Seq<char> {
    (if recursive {
        "WITH RECURSIVE "@
    } else {
        "WITH "@
    }) + spec_quote_identifier(q, name) + spec_column_clause(q, cols) + " AS ("@
}

/// Render the opening of a CTE statement for backend `DB`, up to and
/// including ` AS (`.
///
/// Succeeds exactly when the column alias list holds no duplicate; on
/// failure no text at all is produced and the error names the first
/// repeated alias in scan order.
pub fn render_cte_header<DB: SqlBackend>(
    recursive: bool,
    cte_name: &str,
    cols: &Columns,
) -> (r: Result<String, CteError>)
    ensures
        r is Ok <==> all_distinct(cols@),
        r matches Ok(s) ==> s@ == spec_cte_header(DB::quote_char(), recursive, cte_name@, cols@),
        r matches Err(e) ==> exists|j: int|
            #[trigger] is_first_dup(cols@, j) && e.name_spec() == cols@[j],
{
    let mut out = String::new();
    if recursive {
        out.append("WITH RECURSIVE ");
    } else {
        out.append("WITH ");
    }
    let quoted = DB::quote_identifier(cte_name);
    out.append(quoted.as_str());
    match push_identifiers::<DB>(&mut out, cols) {
        Err(e) => {
            return Err(e);
        },
        Ok(()) => {},
    }
    out.append(" AS (");
    proof {
        assert(out@ =~= spec_cte_header(DB::quote_char(), recursive, cte_name@, cols@));
    }
    Ok(out)
}

/// A rendered statement: the complete SQL text and the bind parameter
/// values in the exact order their placeholders occur in the text.
#[derive(Debug, Clone)]
pub struct Rendered {
    /// The complete SQL text of the statement.
    pub sql: String,
    /// The bind parameter values, in textual placeholder order.
    pub binds: Vec<String>,
}

/// A non-recursive CTE statement: `WITH name [(cols)] AS (cte) body`.
///
/// The entity owns its name, alias list and fragments and is immutable
/// once built; rendering reads it and produces a fresh [`Rendered`] each
/// call.  The statement's result shape is the body fragment's.
#[derive(Debug)]
pub struct WithCte<DB: SqlBackend, Def, Body> {
    /// The CTE's name, quoted at render time.
    pub cte_name: String,
    /// The column alias list; empty means "infer from the inner query".
    pub columns: Columns,
    /// The fragment defining the CTE.
    pub cte: Def,
    /// The fragment consuming the CTE.
    pub body: Body,
    /// The backend the statement is rendered for.
    pub backend: core::marker::PhantomData<DB>,
}

impl<DB: SqlBackend, Def: Renderable, Body: Renderable> WithCte<DB, Def, Body> {
    /// The complete SQL text this entity renders to.
    pub open spec fn sql_spec(&self) -> Seq<char> {
        spec_cte_header(DB::quote_char(), false, self.cte_name@, self.columns@)
            + self.cte.sql_spec() + ") "@ + self.body.sql_spec()
    }

    /// The bind parameters of the statement: the defining fragment's
    /// binds, then the body fragment's, matching textual order.
    pub open spec fn binds_spec(&self) -> Seq<Seq<char>> {
        self.cte.binds_spec() + self.body.binds_spec()
    }

    /// Render the statement.
    ///
    /// Succeeds exactly when the column alias list holds no duplicate,
    /// yielding the full statement text and the bind values in textual
    /// order.  On failure nothing is rendered and the error names the
    /// first repeated alias in scan order.
    pub fn render(&self) -> (r: Result<Rendered, CteError>)
        ensures
            r is Ok <==> all_distinct(self.columns@),
            r matches Ok(out) ==> out.sql@ == self.sql_spec() && out.binds.deep_view()
                == self.binds_spec(),
            r matches Err(e) ==> exists|j: int|
                #[trigger] is_first_dup(self.columns@, j) && e.name_spec() == self.columns@[j],
    {
        let mut sql = match render_cte_header::<DB>(false, self.cte_name.as_str(), &self.columns) {
            Ok(h) => h,
            Err(e) => {
                return Err(e);
            },
        };
        let def_sql = self.cte.sql_text();
        sql.append(def_sql.as_str());
        sql.append(") ");
        let body_sql = self.body.sql_text();
        sql.append(body_sql.as_str());
        let mut binds = self.cte.bind_params();
        let mut more = self.body.bind_params();
        binds.append(&mut more);
        proof {
            assert(sql@ =~= self.sql_spec());
            assert(binds.deep_view() =~= self.binds_spec());
        }
        Ok(Rendered { sql, binds })
    }
}

/// A recursive CTE statement:
/// `WITH RECURSIVE name [(cols)] AS (seed UNION ALL step) body`.
///
/// Buildable only for a backend in the recursive-capability registry
/// ([`RecursiveBackend`]); an incapable backend is a compile-time type
/// error.  The composer does not bound the recursion: termination is
/// governed solely by the step fragment's own predicate.
#[derive(Debug)]
pub struct WithRecursive<DB: RecursiveBackend, Seed, Step, Body> {
    /// The CTE's name, quoted at render time.
    pub cte_name: String,
    /// The column alias list; empty means "infer from the inner query".
    pub columns: Columns,
    /// The fragment producing the initial working set.
    pub seed: Seed,
    /// The fragment re-evaluated against the CTE's accumulating result.
    pub step: Step,
    /// The fragment consuming the CTE.
    pub body: Body,
    /// The backend the statement is rendered for.
    pub backend: core::marker::PhantomData<DB>,
}

impl<DB: RecursiveBackend, Seed: Renderable, Step: Renderable, Body: Renderable> WithRecursive<
    DB,
    Seed,
    Step,
    Body,
> {
    /// The complete SQL text this entity renders to.
    pub open spec fn sql_spec(&self) -> Seq<char> {
        spec_cte_header(DB::quote_char(), true, self.cte_name@, self.columns@)
            + self.seed.sql_spec() + " UNION ALL "@ + self.step.sql_spec() + ") "@
            + self.body.sql_spec()
    }

    /// The bind parameters of the statement: seed binds, then step binds,
    /// then body binds, matching textual order.
    pub open spec fn binds_spec(&self) -> Seq<Seq<char>> {
        self.seed.binds_spec() + self.step.binds_spec() + self.body.binds_spec()
    }

    /// Render the statement.
    ///
    /// Succeeds exactly when the column alias list holds no duplicate,
    /// yielding the full statement text and the bind values in textual
    /// order.  On failure nothing is rendered and the error names the
    /// first repeated alias in scan order.
    pub fn render(&self) -> (r: Result<Rendered, CteError>)
        ensures
            r is Ok <==> all_distinct(self.columns@),
            r matches Ok(out) ==> out.sql@ == self.sql_spec() && out.binds.deep_view()
                == self.binds_spec(),
            r matches Err(e) ==> exists|j: int|
                #[trigger] is_first_dup(self.columns@, j) && e.name_spec() == self.columns@[j],
    {
        let mut sql = match render_cte_header::<DB>(true, self.cte_name.as_str(), &self.columns) {
            Ok(h) => h,
            Err(e) => {
                return Err(e);
            },
        };
        let seed_sql = self.seed.sql_text();
        sql.append(seed_sql.as_str());
        sql.append(" UNION ALL ");
        let step_sql = self.step.sql_text();
        sql.append(step_sql.as_str());
        sql.append(") ");
        let body_sql = self.body.sql_text();
        sql.append(body_sql.as_str());
        let mut binds = self.seed.bind_params();
        let mut step_binds = self.step.bind_params();
        let mut body_binds = self.body.bind_params();
        binds.append(&mut step_binds);
        binds.append(&mut body_binds);
        proof {
            assert(sql@ =~= self.sql_spec());
            assert(binds.deep_view() =~= self.binds_spec());
        }
        Ok(Rendered { sql, binds })
    }
}

/// With an empty alias list no parenthesized clause appears in the
/// rendered statement: the column clause contributes no text at all.
pub proof fn lemma_empty_columns_render_no_clause(q: char)
    ensures
        spec_column_clause(q, Seq::<Seq<char>>::empty()) == Seq::<char>::empty(),
{
}

/// Rendering a non-recursive CTE is deterministic: any two successful
/// renders of the same entity yield byte-identical SQL text and identical
/// bind sequences.  Together with `render` taking `&self`, this is the
/// idempotence of rendering.
pub proof fn lemma_cte_render_deterministic<DB: SqlBackend, Def: Renderable, Body: Renderable>(
    w: WithCte<DB, Def, Body>,
    r1: Rendered,
    r2: Rendered,
)
    requires
        r1.sql@ == w.sql_spec(),
        r1.binds.deep_view() == w.binds_spec(),
        r2.sql@ == w.sql_spec(),
        r2.binds.deep_view() == w.binds_spec(),
    ensures
        r1.sql@ == r2.sql@,
        r1.binds.deep_view() == r2.binds.deep_view(),
{
}

/// Rendering a recursive CTE is deterministic: any two successful renders
/// of the same entity yield byte-identical SQL text and identical bind
/// sequences.  Together with `render` taking `&self`, this is the
/// idempotence of rendering.
pub proof fn lemma_recursive_render_deterministic<
    DB: RecursiveBackend,
    Seed: Renderable,
    Step: Renderable,
    Body: Renderable,
>(
    w: WithRecursive<DB, Seed, Step, Body>,
    r1: Rendered,
    r2: Rendered,
)
    requires
        r1.sql@ == w.sql_spec(),
        r1.binds.deep_view() == w.binds_spec(),
        r2.sql@ == w.sql_spec(),
        r2.binds.deep_view() == w.binds_spec(),
    ensures
        r1.sql@ == r2.sql@,
        r1.binds.deep_view() == r2.binds.deep_view(),
{
}

} // verus!
