//! The query builder: accumulate a source and an optional filter, then
//! project to obtain an immutable, renderable `Query`.

use vstd::prelude::*;
use vstd::string::StringExecFns;
use crate::ast::{
    expr_models, opt_expr_model, spec_render_query, AstExpr, AstFrom, AstQuery, ExprModel,
    FromModel,
};
use crate::expr::Expr;
use crate::table::TableMeta;
use crate::txn::{Active, Txn};
use crate::types::{AggState, Nullability, SqlTy};

verus! {

/// A query under construction: the accumulated source and the optional
/// filter folded so far.
pub struct FromBuilder {
    pub from: AstFrom,
    pub filter: Option<AstExpr>,
}

/// A builder over a single bare table, with no filter yet.
pub fn from(t: &TableMeta) -> (b: FromBuilder)
    ensures
        b.from@ == (FromModel::Table { name: t.name@ }),
        b.filter is None,
{
    FromBuilder { from: t.from_ast(), filter: None }
}

/// How a new predicate folds into an accumulated filter: it becomes the
/// filter when none exists yet, and is conjoined on the right with `AND`
/// otherwise.
pub open spec fn spec_add_filter(cur: Option<ExprModel>, f: ExprModel) -> ExprModel {
    match cur {
        None => f,
        Some(c) => ExprModel::BinOp { op: "AND"@, lhs: Box::new(c), rhs: Box::new(f) },
    }
}

/// The AST models of a sequence of typed expressions, in order.
pub open spec fn expr_asts(s: Seq<Expr>) -> Seq<ExprModel> {
    s.map(|i: int, e: Expr| e.ast@)
}

/// The row shape of a projection: per expression, its value type and
/// nullability.  A cell may be absent exactly when its tag is `Nullable`.
pub open spec fn expr_shape(s: Seq<Expr>) -> Seq<(SqlTy, Nullability)> {
    s.map(|i: int, e: Expr| (e.ty@, e.null@))
}

impl Clone for FromBuilder {
    /// A deep copy with the same source and filter models.
    fn clone(&self) -> (r: Self)
        ensures
            r.from@ == self.from@,
            opt_expr_model(r.filter) == opt_expr_model(self.filter),
    {
        FromBuilder {
            from: self.from.clone(),
            filter: match &self.filter {
                Some(f) => Some(f.clone()),
                None => None,
            },
        }
    }
}

impl FromBuilder {
    /// Fold one predicate's AST into the accumulated filter.
    pub fn with_filter(self, f: AstExpr) -> (r: Self)
        ensures
            r.from@ == self.from@,
            r.filter matches Some(w) && w@ == spec_add_filter(opt_expr_model(self.filter), f@),
    {
        let new_filter = match self.filter {
            None => f,
            Some(old_f) => AstExpr::BinOp {
                op: String::from_str("AND"),
                lhs: Box::new(old_f),
                rhs: Box::new(f),
            },
        };
        FromBuilder { from: self.from, filter: Some(new_filter) }
    }

    /// Add a filter predicate.  The predicate must be a boolean, not-null,
    /// non-aggregated expression; repeated calls conjoin their predicates
    /// with `AND` in call order.
    pub fn filter(self, pred: Expr) -> (r: Self)
        requires
            pred.ty@ == SqlTy::Bool,
            pred.null@ == Nullability::NotNull,
            pred.agg@ == AggState::NonAgg,
        ensures
            r.from@ == self.from@,
            r.filter matches Some(w) && w@ == spec_add_filter(
                opt_expr_model(self.filter),
                pred.ast@,
            ),
    {
        self.with_filter(pred.ast)
    }

    /// Compose this builder's source with another table as `LEFT JOIN`.
    /// The `ON` condition is built against the two sources' normal proxies
    /// (rows as they stand before join nullability applies), so it must be
    /// boolean, not-null and non-aggregated; the other builder must still be
    /// over a bare table, and any filter it accumulated is discarded.  The
    /// previous source becomes the left operand, so chained joins nest
    /// left-deep; the accumulated filter carries over.
    pub fn left_join(self, rhs: FromBuilder, on: Expr) -> (r: Self)
        requires
            rhs.from@ is Table,
            on.ty@ == SqlTy::Bool,
            on.null@ == Nullability::NotNull,
            on.agg@ == AggState::NonAgg,
        ensures
            r.from@ == (FromModel::Join {
                kind: "LEFT"@,
                left: Box::new(self.from@),
                right: Box::new(rhs.from@),
                on: on.ast@,
            }),
            opt_expr_model(r.filter) == opt_expr_model(self.filter),
    {
        FromBuilder {
            from: AstFrom::Join {
                kind: String::from_str("LEFT"),
                left: Box::new(self.from),
                right: Box::new(rhs.from),
                on: on.ast,
            },
            filter: self.filter,
        }
    }

    /// The terminal step: fix the projection and freeze the query.  Each
    /// projected expression contributes its AST to the projection list and
    /// its ghost tags to the row shape, in order.
    pub fn select(self, proj: Vec<Expr>) -> (q: Query)
        ensures
            q.ast@.from == Some(self.from@),
            q.ast@.filter == opt_expr_model(self.filter),
            q.ast@.projection == expr_asts(proj@),
            q.shape@ == expr_shape(proj@),
    {
        let ghost all = proj@;
        let mut rest = proj;
        let mut out: Vec<AstExpr> = Vec::new();
        while rest.len() > 0
            invariant
                out@.len() + rest@.len() == all.len(),
                rest@ == all.skip(out@.len() as int),
                expr_models(out@) == expr_asts(all.take(out@.len() as int)),
            decreases rest.len(),
        {
            let ghost k = out@.len() as int;
            let ghost prev = out@;
            let e = rest.remove(0);
            proof {
                assert(all.skip(k)[0] == all[k]);
                assert(e == all[k]);
            }
            out.push(e.ast);
            proof {
                assert(rest@ =~= all.skip(k + 1));
                assert(out@ == prev.push(e.ast));
                assert forall|j: int| 0 <= j < k + 1 implies expr_models(out@)[j] == expr_asts(
                    all.take(k + 1),
                )[j] by {
                    assert(expr_models(out@)[j] == out@[j]@);
                    assert(expr_asts(all.take(k + 1))[j] == all.take(k + 1)[j].ast@);
                    assert(all.take(k + 1)[j] == all[j]);
                    if j < k {
                        assert(expr_models(prev)[j] == expr_asts(all.take(k))[j]);
                        assert(expr_models(prev)[j] == prev[j]@);
                        assert(expr_asts(all.take(k))[j] == all.take(k)[j].ast@);
                        assert(all.take(k)[j] == all[j]);
                        assert(out@[j] == prev[j]);
                    } else {
                        assert(out@[j] == e.ast);
                    }
                }
                assert(expr_models(out@) =~= expr_asts(all.take(k + 1)));
            }
        }
        proof {
            assert(all.take(all.len() as int) =~= all);
        }
        Query {
            ast: AstQuery { from: Some(self.from), filter: self.filter, projection: out },
            shape: Ghost(expr_shape(all)),
        }
    }
}

/// One cell of a fetched row.
pub enum SqlValue {
    Bool(bool),
    Int(i64),
    Text(String),
    Null,
}

/// A finished, immutable query.  `shape` records, per projected column, the
/// value type and whether the cell may be absent.
pub struct Query {
    pub ast: AstQuery,
    pub shape: Ghost<Seq<(SqlTy, Nullability)>>,
}

impl Query {
    /// The rendered SQL text.  Rendering is pure: the text is a function of
    /// the AST alone, so repeated calls yield identical strings.
    pub fn sql(&self) -> (r: String)
        ensures
            r@ == spec_render_query(self.ast@),
    {
        self.ast.render_sql()
    }

    /// Execute the query inside an active transaction.  Execution belongs
    /// to a collaborator outside this library; this stub only upholds the
    /// gate — it is callable solely with evidence of an active transaction —
    /// and returns no rows.
    pub fn fetch_all(self, tx: &Txn<Active>) -> (rows: Vec<Vec<SqlValue>>)
        ensures
            rows@.len() == 0,
    {
        let _ = tx;
        Vec::new()
    }
}

} // verus!
