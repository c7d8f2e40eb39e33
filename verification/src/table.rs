//! Table descriptions and proxies.  A `TableMeta` lists a table's name and
//! columns; from it the library generates two proxies — one whose every
//! column handle is tagged not-null, one whose every handle is tagged
//! nullable — that enumerate the same columns under the same names.

use vstd::prelude::*;
use crate::ast::{AstFrom, FromModel};
use crate::col::{Col, ColumnMeta};
use crate::types::Nullability;

verus! {

/// The description of a table: its SQL name and its columns in order.
pub struct TableMeta {
    pub name: String,
    pub cols: Vec<ColumnMeta>,
}

/// A table proxy: one column handle per declared column, all carrying the
/// same nullability tag.
pub struct Proxy {
    pub cols: Vec<Col>,
}

/// What it means for `p` to be the proxy of `t` with nullability tag
/// `null`: one handle per column, in order, each referencing `t`'s name and
/// the column's own name and type, each tagged `null`.
pub open spec fn proxy_matches(p: Proxy, t: TableMeta, null: Nullability) -> bool {
    &&& p.cols@.len() == t.cols@.len()
    &&& forall|i: int|
        0 <= i < t.cols@.len() ==> {
            &&& (#[trigger] p.cols@[i]).table@ == t.name@
            &&& p.cols@[i].col@ == t.cols@[i].name@
            &&& p.cols@[i].ty@ == t.cols@[i].ty
            &&& p.cols@[i].null@ == null
        }
}

impl TableMeta {
    /// One handle per column, each tagged with the given nullability.
    fn build_proxy(&self, Ghost(null): Ghost<Nullability>, nullable: bool) -> (p: Proxy)
        requires
            nullable <==> null == Nullability::Nullable,
        ensures
            proxy_matches(p, *self, null),
    {
        let mut cols: Vec<Col> = Vec::new();
        let mut i: usize = 0;
        while i < self.cols.len()
            invariant
                i <= self.cols.len(),
                cols.len() == i,
                nullable <==> null == Nullability::Nullable,
                forall|j: int|
                    0 <= j < i ==> {
                        &&& (#[trigger] cols@[j]).table@ == self.name@
                        &&& cols@[j].col@ == self.cols@[j].name@
                        &&& cols@[j].ty@ == self.cols@[j].ty
                        &&& cols@[j].null@ == null
                    },
            decreases self.cols.len() - i,
        {
            let cm = &self.cols[i];
            let tag = if nullable {
                Nullability::Nullable
            } else {
                Nullability::NotNull
            };
            cols.push(
                Col {
                    table: self.name.clone(),
                    col: cm.name.clone(),
                    ty: Ghost(cm.ty),
                    null: Ghost(tag),
                },
            );
            i = i + 1;
        }
        Proxy { cols }
    }

    /// The proxy whose every column handle is tagged `NotNull`.
    pub fn proxy(&self) -> (p: Proxy)
        ensures
            proxy_matches(p, *self, Nullability::NotNull),
    {
        self.build_proxy(Ghost(Nullability::NotNull), false)
    }

    /// The proxy whose every column handle is tagged `Nullable`.
    pub fn nullable_proxy(&self) -> (p: Proxy)
        ensures
            proxy_matches(p, *self, Nullability::Nullable),
    {
        self.build_proxy(Ghost(Nullability::Nullable), true)
    }

    /// The source node for this table: its bare name.
    pub fn from_ast(&self) -> (f: AstFrom)
        ensures
            f@ == (FromModel::Table { name: self.name@ }),
    {
        AstFrom::Table { name: self.name.clone() }
    }
}

} // verus!
