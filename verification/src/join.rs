//! Join composition at the proxy level.  The proxy of a left join pairs the
//! left table's normal proxy with the right table's nullable proxy: a
//! column handle reached through the right side is always tagged nullable,
//! whatever the table's own declaration, which is how outer-join semantics
//! are reflected in the tag layer.

use vstd::prelude::*;
use crate::table::{proxy_matches, Proxy, TableMeta};
use crate::types::Nullability;

verus! {

/// The proxy of a left join: the left source's normal proxy paired with the
/// right source's nullable proxy.
pub struct JoinProxy {
    pub l: Proxy,
    pub r: Proxy,
}

/// The proxy pair for `left LEFT JOIN right`: every handle of `l` keeps its
/// table's own not-null tagging, every handle of `r` is tagged nullable.
pub fn join_proxy(left: &TableMeta, right: &TableMeta) -> (jp: JoinProxy)
    ensures
        proxy_matches(jp.l, *left, Nullability::NotNull),
        proxy_matches(jp.r, *right, Nullability::Nullable),
{
    JoinProxy { l: left.proxy(), r: right.nullable_proxy() }
}

} // verus!
