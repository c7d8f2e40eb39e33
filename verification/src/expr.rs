//! The typed expression algebra.  An `Expr` wraps an AST node with ghost
//! tags for value type, nullability and aggregation state; each operator
//! states in its contract which tag combinations it accepts and what the
//! tags of its result are, so an ill-typed combination fails verification at
//! the call site.

use vstd::prelude::*;
use vstd::string::StringExecFns;
use crate::ast::{AstExpr, ExprModel};
use crate::types::{and_null, AggState, Nullability, SqlTy};

verus! {

/// An AST expression annotated with ghost tags.  The tags have no runtime
/// representation; they exist only so that contracts can speak about them.
pub struct Expr {
    pub ast: AstExpr,
    pub ty: Ghost<SqlTy>,
    pub null: Ghost<Nullability>,
    pub agg: Ghost<AggState>,
}

impl Clone for Expr {
    /// A deep copy with the same model and the same tags.
    fn clone(&self) -> (r: Self)
        ensures
            r.ast@ == self.ast@,
            r.ty@ == self.ty@,
            r.null@ == self.null@,
            r.agg@ == self.agg@,
    {
        Expr {
            ast: self.ast.clone(),
            ty: Ghost(self.ty@),
            null: Ghost(self.null@),
            agg: Ghost(self.agg@),
        }
    }
}

/// A boolean literal: `TRUE` or `FALSE`, not null, not aggregated.
pub fn lit(v: bool) -> (e: Expr)
    ensures
        e.ast@ == (ExprModel::Bool { b: v }),
        e.ty@ == SqlTy::Bool,
        e.null@ == Nullability::NotNull,
        e.agg@ == AggState::NonAgg,
{
    Expr {
        ast: AstExpr::Bool(v),
        ty: Ghost(SqlTy::Bool),
        null: Ghost(Nullability::NotNull),
        agg: Ghost(AggState::NonAgg),
    }
}

/// An integer literal, not null, not aggregated.
pub fn int_lit(v: i64) -> (e: Expr)
    ensures
        e.ast@ == (ExprModel::Int { i: v as int }),
        e.ty@ == SqlTy::Int,
        e.null@ == Nullability::NotNull,
        e.agg@ == AggState::NonAgg,
{
    Expr {
        ast: AstExpr::Int(v),
        ty: Ghost(SqlTy::Int),
        null: Ghost(Nullability::NotNull),
        agg: Ghost(AggState::NonAgg),
    }
}

/// A string literal, not null, not aggregated.  Its text is escaped only at
/// rendering time; the AST holds it as written.
pub fn str_lit(v: &str) -> (e: Expr)
    ensures
        e.ast@ == (ExprModel::Str { s: v@ }),
        e.ty@ == SqlTy::Text,
        e.null@ == Nullability::NotNull,
        e.agg@ == AggState::NonAgg,
{
    Expr {
        ast: AstExpr::Str(String::from_str(v)),
        ty: Ghost(SqlTy::Text),
        null: Ghost(Nullability::NotNull),
        agg: Ghost(AggState::NonAgg),
    }
}

/// A positional parameter of the given value type.  Parameters render as
/// `$<index+1>` and are the safe path for caller-supplied values; the
/// library only emits the placeholder and never binds a value.
pub fn param(idx: u64, ty: SqlTy) -> (e: Expr)
    ensures
        e.ast@ == (ExprModel::Param { idx: idx as nat }),
        e.ty@ == ty,
        e.null@ == Nullability::NotNull,
        e.agg@ == AggState::NonAgg,
{
    Expr { ast: AstExpr::Param { idx }, ty: Ghost(ty), null: Ghost(Nullability::NotNull), agg: Ghost(
        AggState::NonAgg,
    ) }
}

impl Expr {
    /// The model of the binary node an operator builds from two operands.
    pub open spec fn bin_model(op: Seq<char>, l: ExprModel, r: ExprModel) -> ExprModel {
        ExprModel::BinOp { op, lhs: Box::new(l), rhs: Box::new(r) }
    }

    /// A generic binary operation between two expressions of identical
    /// typing; the result is boolean with the operands' aggregation state.
    pub fn bin(self, op: &str, other: Expr) -> (r: Expr)
        requires
            self.ty@ == other.ty@,
            self.null@ == other.null@,
            self.agg@ == other.agg@,
        ensures
            r.ast@ == Self::bin_model(op@, self.ast@, other.ast@),
            r.ty@ == SqlTy::Bool,
            r.null@ == Nullability::NotNull,
            r.agg@ == self.agg@,
    {
        Expr {
            ast: AstExpr::BinOp {
                op: String::from_str(op),
                lhs: Box::new(self.ast),
                rhs: Box::new(other.ast),
            },
            ty: Ghost(SqlTy::Bool),
            null: Ghost(Nullability::NotNull),
            agg: Ghost(self.agg@),
        }
    }

    /// Equality comparison.  Operands must share value type and aggregation
    /// state; nullability of the operands is unconstrained, and the result
    /// is always `NotNull` — NULL propagation through comparisons is
    /// deliberately not modelled.
    pub fn eq(self, rhs: Expr) -> (r: Expr)
        requires
            self.ty@ == rhs.ty@,
            self.agg@ == rhs.agg@,
        ensures
            r.ast@ == Self::bin_model("="@, self.ast@, rhs.ast@),
            r.ty@ == SqlTy::Bool,
            r.null@ == Nullability::NotNull,
            r.agg@ == self.agg@,
    {
        Expr {
            ast: AstExpr::BinOp {
                op: String::from_str("="),
                lhs: Box::new(self.ast),
                rhs: Box::new(rhs.ast),
            },
            ty: Ghost(SqlTy::Bool),
            null: Ghost(Nullability::NotNull),
            agg: Ghost(self.agg@),
        }
    }

    /// Inequality comparison, typed exactly as `eq`.
    pub fn ne(self, rhs: Expr) -> (r: Expr)
        requires
            self.ty@ == rhs.ty@,
            self.agg@ == rhs.agg@,
        ensures
            r.ast@ == Self::bin_model("<>"@, self.ast@, rhs.ast@),
            r.ty@ == SqlTy::Bool,
            r.null@ == Nullability::NotNull,
            r.agg@ == self.agg@,
    {
        Expr {
            ast: AstExpr::BinOp {
                op: String::from_str("<>"),
                lhs: Box::new(self.ast),
                rhs: Box::new(rhs.ast),
            },
            ty: Ghost(SqlTy::Bool),
            null: Ghost(Nullability::NotNull),
            agg: Ghost(self.agg@),
        }
    }

    /// Boolean `AND`.  Both operands must be boolean with the same
    /// aggregation state; the result is nullable as soon as either operand
    /// is, mirroring three-valued logic at the tag level.
    pub fn bitand(self, rhs: Expr) -> (r: Expr)
        requires
            self.ty@ == SqlTy::Bool,
            rhs.ty@ == SqlTy::Bool,
            self.agg@ == rhs.agg@,
        ensures
            r.ast@ == Self::bin_model("AND"@, self.ast@, rhs.ast@),
            r.ty@ == SqlTy::Bool,
            r.null@ == and_null(self.null@, rhs.null@),
            r.agg@ == self.agg@,
    {
        Expr {
            ast: AstExpr::BinOp {
                op: String::from_str("AND"),
                lhs: Box::new(self.ast),
                rhs: Box::new(rhs.ast),
            },
            ty: Ghost(SqlTy::Bool),
            null: Ghost(and_null(self.null@, rhs.null@)),
            agg: Ghost(self.agg@),
        }
    }

    /// Boolean `OR`, with the same tag rules as `bitand`.
    pub fn bitor(self, rhs: Expr) -> (r: Expr)
        requires
            self.ty@ == SqlTy::Bool,
            rhs.ty@ == SqlTy::Bool,
            self.agg@ == rhs.agg@,
        ensures
            r.ast@ == Self::bin_model("OR"@, self.ast@, rhs.ast@),
            r.ty@ == SqlTy::Bool,
            r.null@ == and_null(self.null@, rhs.null@),
            r.agg@ == self.agg@,
    {
        Expr {
            ast: AstExpr::BinOp {
                op: String::from_str("OR"),
                lhs: Box::new(self.ast),
                rhs: Box::new(rhs.ast),
            },
            ty: Ghost(SqlTy::Bool),
            null: Ghost(and_null(self.null@, rhs.null@)),
            agg: Ghost(self.agg@),
        }
    }

    /// Boolean `NOT`, a dedicated unary node; the nullability tag passes
    /// through unchanged.
    pub fn not(self) -> (r: Expr)
        requires
            self.ty@ == SqlTy::Bool,
        ensures
            r.ast@ == (ExprModel::Not { inner: Box::new(self.ast@) }),
            r.ty@ == SqlTy::Bool,
            r.null@ == self.null@,
            r.agg@ == self.agg@,
    {
        Expr {
            ast: AstExpr::Not(Box::new(self.ast)),
            ty: Ghost(SqlTy::Bool),
            null: Ghost(self.null@),
            agg: Ghost(self.agg@),
        }
    }
}

} // verus!
