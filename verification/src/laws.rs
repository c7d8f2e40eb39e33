//! The laws the library upholds, stated over the models and spec functions
//! that the executable functions' contracts use.

use vstd::prelude::*;
use crate::ast::{
    spec_escaped, spec_render_expr, spec_render_from, spec_render_query, ExprModel, FromModel,
    QueryModel,
};
use crate::query::spec_add_filter;
use crate::table::{proxy_matches, Proxy, TableMeta};
use crate::types::{and_null, Nullability};

verus! {

/// The two proxies of one table agree on everything but the nullability
/// tag: same number of columns, same column names, and for every column the
/// identical rendered `table.column` text.
pub proof fn lemma_proxies_agree(p: Proxy, q: Proxy, t: TableMeta)
    requires
        proxy_matches(p, t, Nullability::NotNull),
        proxy_matches(q, t, Nullability::Nullable),
    ensures
        p.cols@.len() == q.cols@.len(),
        forall|i: int|
            0 <= i < p.cols@.len() ==> (#[trigger] p.cols@[i]).col@ == q.cols@[i].col@,
        forall|i: int|
            0 <= i < p.cols@.len() ==> spec_render_expr((#[trigger] p.cols@[i]).ast_model())
                == spec_render_expr(q.cols@[i].ast_model()),
{
    assert forall|i: int| 0 <= i < p.cols@.len() implies spec_render_expr(
        (#[trigger] p.cols@[i]).ast_model(),
    ) == spec_render_expr(q.cols@[i].ast_model()) by {
        assert(p.cols@[i].ast_model() == q.cols@[i].ast_model());
    }
}

/// Filter accumulation is order-preserving: starting from a builder with no
/// filter, two `filter` calls with `a` then `b` accumulate exactly the
/// predicate that one call with `a AND b` does, so both render identically.
pub proof fn lemma_filter_accumulation(pa: ExprModel, pb: ExprModel)
    ensures
        spec_add_filter(Some(spec_add_filter(None, pa)), pb) == spec_add_filter(
            None,
            ExprModel::BinOp { op: "AND"@, lhs: Box::new(pa), rhs: Box::new(pb) },
        ),
        spec_render_expr(spec_add_filter(Some(spec_add_filter(None, pa)), pb)) == "("@
            + spec_render_expr(pa) + " AND "@ + spec_render_expr(pb) + ")"@,
{
    reveal_strlit(" ");
    reveal_strlit("AND");
    reveal_strlit(" AND ");
    assert("("@ + spec_render_expr(pa) + " "@ + "AND"@ + " "@ + spec_render_expr(pb) + ")"@ =~= "("@
        + spec_render_expr(pa) + " AND "@ + spec_render_expr(pb) + ")"@);
}

/// The nullability table of the boolean connectives: combining two not-null
/// boolean expressions stays not-null; as soon as either operand is
/// nullable, the combination is nullable.
pub proof fn lemma_and_or_nullability()
    ensures
        and_null(Nullability::NotNull, Nullability::NotNull) == Nullability::NotNull,
        and_null(Nullability::NotNull, Nullability::Nullable) == Nullability::Nullable,
        and_null(Nullability::Nullable, Nullability::NotNull) == Nullability::Nullable,
        and_null(Nullability::Nullable, Nullability::Nullable) == Nullability::Nullable,
{
}

/// A left join renders exactly `<left> LEFT JOIN <right> ON <cond>`, with
/// no parentheses added around either source.
pub proof fn lemma_left_join_render(l: FromModel, r: FromModel, on: ExprModel)
    ensures
        spec_render_from(
            FromModel::Join { kind: "LEFT"@, left: Box::new(l), right: Box::new(r), on },
        ) == spec_render_from(l) + " LEFT JOIN "@ + spec_render_from(r) + " ON "@
            + spec_render_expr(on),
{
    reveal_strlit(" ");
    reveal_strlit("LEFT");
    reveal_strlit(" JOIN ");
    reveal_strlit(" LEFT JOIN ");
    assert(spec_render_from(l) + " "@ + "LEFT"@ + " JOIN "@ + spec_render_from(r) + " ON "@
        + spec_render_expr(on) =~= spec_render_from(l) + " LEFT JOIN "@ + spec_render_from(r)
        + " ON "@ + spec_render_expr(on));
}

/// Chaining two left joins nests the first join as the left operand of the
/// second, so the rendered text is the left-deep concatenation of the three
/// sources and the two conditions, in order.
pub proof fn lemma_left_join_left_deep(
    a: FromModel,
    b: FromModel,
    c: FromModel,
    on1: ExprModel,
    on2: ExprModel,
)
    ensures
        spec_render_from(
            FromModel::Join {
                kind: "LEFT"@,
                left: Box::new(
                    FromModel::Join { kind: "LEFT"@, left: Box::new(a), right: Box::new(b), on: on1 },
                ),
                right: Box::new(c),
                on: on2,
            },
        ) == spec_render_from(a) + " LEFT JOIN "@ + spec_render_from(b) + " ON "@
            + spec_render_expr(on1) + " LEFT JOIN "@ + spec_render_from(c) + " ON "@
            + spec_render_expr(on2),
{
    let inner = FromModel::Join { kind: "LEFT"@, left: Box::new(a), right: Box::new(b), on: on1 };
    lemma_left_join_render(a, b, on1);
    lemma_left_join_render(inner, c, on2);
    assert(spec_render_from(inner) + " LEFT JOIN "@ + spec_render_from(c) + " ON "@
        + spec_render_expr(on2) =~= spec_render_from(a) + " LEFT JOIN "@ + spec_render_from(b)
        + " ON "@ + spec_render_expr(on1) + " LEFT JOIN "@ + spec_render_from(c) + " ON "@
        + spec_render_expr(on2));
}

/// Rendering has no hidden state: the text of a query is a function of its
/// AST alone, so any two renderings of the same query are identical.
pub proof fn lemma_render_deterministic(q: QueryModel, s1: Seq<char>, s2: Seq<char>)
    requires
        s1 == spec_render_query(q),
        s2 == spec_render_query(q),
    ensures
        s1 == s2,
{
}

/// Escaping doubles every single quote and touches nothing else: a string
/// with a quote between two quote-free parts renders with the parts kept as
/// they are and the quote doubled.
pub proof fn lemma_escape_quote_doubled(a: Seq<char>, b: Seq<char>)
    ensures
        spec_escaped(a + seq!['\''] + b) == spec_escaped(a) + seq!['\'', '\''] + spec_escaped(b),
{
    crate::render::lemma_escaped_append(a + seq!['\''], b);
    crate::render::lemma_escaped_append(a, seq!['\'']);
    crate::render::lemma_escaped_singleton('\'');
    assert(spec_escaped(a) + seq!['\'', '\''] + spec_escaped(b) =~= (spec_escaped(a) + seq![
        '\'',
        '\'',
    ]) + spec_escaped(b));
}

} // verus!
