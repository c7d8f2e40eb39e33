//! A small query-construction library: callers assemble a relational query
//! (table sources, left joins, filter predicates, column projections) as an
//! in-memory expression tree and render it to SQL text.  Expressions carry
//! ghost tags for value type, nullability and aggregation state; the typing
//! rules of the expression algebra are stated as `requires`/`ensures`, so an
//! ill-typed combination is rejected when a caller is verified, before any
//! query text exists.

pub mod ast;
pub mod col;
pub mod expr;
pub mod join;
pub mod laws;
pub mod query;
pub mod render;
pub mod table;
pub mod txn;
pub mod types;
