//! Composition of `WITH` / `WITH RECURSIVE` common table expressions from
//! opaque SQL fragments.
//!
//! The crate models a CTE as a named, optionally column-aliased wrapper
//! around pre-built SQL fragments and renders it to backend-correct SQL
//! text with the bind parameters kept in textual order.  Column aliases are
//! validated for duplicates before any text is produced, and identifier
//! quoting follows the target backend's convention.

pub mod builders;
pub mod columns;
pub mod connection_ext;
pub mod cte;
pub mod fragment;

pub use builders::with_cte;
pub use builders::with_recursive;
pub use builders::CteParts;
pub use builders::RecursiveParts;
pub use columns::Columns;
pub use connection_ext::RecursiveCTEExt;
pub use cte::RecursiveBackend;
pub use fragment::QueryPart;
