//! Column handles.  A `Col` identifies one column of one table together
//! with ghost tags for its value type and nullability; its only job is to
//! produce a typed expression referencing the `table.column` pair.

use vstd::prelude::*;
use crate::ast::{AstExpr, ExprModel};
use crate::expr::Expr;
use crate::types::{AggState, Nullability, SqlTy};

verus! {

/// The description of one column of a table: its SQL name and value type.
pub struct ColumnMeta {
    pub name: String,
    pub ty: SqlTy,
}

/// A handle for one column of one table.  The value type and nullability
/// tags are ghost; two handles for the same table and column that differ
/// only in nullability render to the identical `table.column` text.
pub struct Col {
    pub table: String,
    pub col: String,
    pub ty: Ghost<SqlTy>,
    pub null: Ghost<Nullability>,
}

impl Clone for Col {
    /// A copy of the handle: same table, column and tags.
    fn clone(&self) -> (r: Self)
        ensures
            r.table@ == self.table@,
            r.col@ == self.col@,
            r.ty@ == self.ty@,
            r.null@ == self.null@,
    {
        Col {
            table: self.table.clone(),
            col: self.col.clone(),
            ty: Ghost(self.ty@),
            null: Ghost(self.null@),
        }
    }
}

impl Col {
    /// The model of the column-reference node this handle stands for.
    pub open spec fn ast_model(self) -> ExprModel {
        ExprModel::Column { table: self.table@, col: self.col@ }
    }

    /// The typed expression for this column: a column-reference node
    /// carrying the owning table's name and the column's name, tagged with
    /// the handle's value type and nullability, never aggregated.
    pub fn expr(&self) -> (e: Expr)
        ensures
            e.ast@ == self.ast_model(),
            e.ty@ == self.ty@,
            e.null@ == self.null@,
            e.agg@ == AggState::NonAgg,
    {
        Expr {
            ast: AstExpr::Column { table: self.table.clone(), col: self.col.clone() },
            ty: Ghost(self.ty@),
            null: Ghost(self.null@),
            agg: Ghost(AggState::NonAgg),
        }
    }
}

} // verus!
