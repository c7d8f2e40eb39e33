//! The tag types of the expression algebra: SQL value types, nullability and
//! aggregation state.  Expressions carry these only as ghost data; they exist
//! to constrain which combinations of operations verify and what the tags of
//! a combined expression are.

use vstd::prelude::*;

verus! {

/// The SQL value type of an expression: boolean, integer or text.
#[derive(Clone, Copy, Debug, PartialEq, Eq, Structural)]
pub enum SqlTy {
    Bool,
    Int,
    Text,
}

/// Whether an expression may stand for an absent value.  A column reached
/// through the right side of a left join is always `Nullable`.
#[derive(Clone, Copy, Debug, PartialEq, Eq, Structural)]
pub enum Nullability {
    NotNull,
    Nullable,
}

/// Whether an expression is an aggregate.  Aggregate operators are not part
/// of the base design, but the tag keeps scalar and aggregate expressions
/// from mixing once they are.
#[derive(Clone, Copy, Debug, PartialEq, Eq, Structural)]
pub enum AggState {
    NonAgg,
    Agg,
}

/// How nullability combines across the boolean connectives `AND` and `OR`:
/// the result is `NotNull` exactly when both operands are.
pub open spec fn and_null(l: Nullability, r: Nullability) -> Nullability {
    if l == Nullability::NotNull && r == Nullability::NotNull {
        Nullability::NotNull
    } else {
        Nullability::Nullable
    }
}

} // verus!
