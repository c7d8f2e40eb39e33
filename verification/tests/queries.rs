use sqla::ast::{AstExpr, AstFrom, AstQuery};
use sqla::col::ColumnMeta;
use sqla::expr::{int_lit, lit, param, str_lit};
use sqla::join::join_proxy;
use sqla::query::from;
use sqla::render::{render_expr, render_from};
use sqla::table::TableMeta;
use sqla::txn::Conn;
use sqla::types::SqlTy;

fn users() -> TableMeta {
    TableMeta {
        name: "users".to_string(),
        cols: vec![
            ColumnMeta { name: "id".to_string(), ty: SqlTy::Int },
            ColumnMeta { name: "name".to_string(), ty: SqlTy::Text },
        ],
    }
}

fn orders() -> TableMeta {
    TableMeta {
        name: "orders".to_string(),
        cols: vec![
            ColumnMeta { name: "id".to_string(), ty: SqlTy::Int },
            ColumnMeta { name: "user_id".to_string(), ty: SqlTy::Int },
        ],
    }
}

fn items() -> TableMeta {
    TableMeta {
        name: "items".to_string(),
        cols: vec![
            ColumnMeta { name: "id".to_string(), ty: SqlTy::Int },
            ColumnMeta { name: "order_id".to_string(), ty: SqlTy::Int },
        ],
    }
}

#[test]
fn render_single_column_from_table() {
    let t = users();
    let p = t.proxy();
    let q = from(&t).select(vec![p.cols[0].expr()]);
    assert_eq!(q.sql(), "SELECT users.id FROM users");
}

#[test]
fn proxies_share_names_and_rendered_text() {
    let t = users();
    let p = t.proxy();
    let n = t.nullable_proxy();
    assert_eq!(p.cols.len(), n.cols.len());
    for i in 0..p.cols.len() {
        assert_eq!(p.cols[i].col, n.cols[i].col);
        let pe = p.cols[i].expr();
        let ne = n.cols[i].expr();
        assert_eq!(render_expr(&pe.ast), render_expr(&ne.ast));
    }
}

#[test]
fn filter_twice_equals_combined_filter() {
    let t = users();
    let p1 = t.proxy();
    let p2 = t.proxy();
    let a1 = p1.cols[0].expr().eq(param(0, SqlTy::Int));
    let b1 = p1.cols[1].expr().eq(param(1, SqlTy::Text));
    let two_calls = from(&t).filter(a1).filter(b1).select(vec![p1.cols[0].expr()]);
    let a2 = p2.cols[0].expr().eq(param(0, SqlTy::Int));
    let b2 = p2.cols[1].expr().eq(param(1, SqlTy::Text));
    let one_call = from(&t).filter(a2.bitand(b2)).select(vec![p2.cols[0].expr()]);
    assert_eq!(two_calls.sql(), one_call.sql());
    assert_eq!(
        two_calls.sql(),
        "SELECT users.id FROM users WHERE ((users.id = $1) AND (users.name = $2))"
    );
}

#[test]
fn left_join_renders_on_condition() {
    let u = users();
    let o = orders();
    let jp = join_proxy(&u, &o);
    let on = jp.l.cols[0].expr().eq(jp.r.cols[1].expr());
    let q = from(&u).left_join(from(&o), on).select(vec![jp.l.cols[1].expr()]);
    assert_eq!(
        q.sql(),
        "SELECT users.name FROM users LEFT JOIN orders ON (users.id = orders.user_id)"
    );
}

#[test]
fn chained_joins_nest_left_deep() {
    let u = users();
    let o = orders();
    let it = items();
    let jp1 = join_proxy(&u, &o);
    let on1 = jp1.l.cols[0].expr().eq(jp1.r.cols[1].expr());
    let jp2 = join_proxy(&o, &it);
    let on2 = jp2.l.cols[0].expr().eq(jp2.r.cols[1].expr());
    let q = from(&u)
        .left_join(from(&o), on1)
        .left_join(from(&it), on2)
        .select(vec![jp1.l.cols[0].expr()]);
    assert_eq!(
        q.sql(),
        "SELECT users.id FROM users LEFT JOIN orders ON (users.id = orders.user_id) \
         LEFT JOIN items ON (orders.id = items.order_id)"
    );
}

#[test]
fn left_join_carries_existing_filter() {
    let u = users();
    let o = orders();
    let jp = join_proxy(&u, &o);
    let pre = jp.l.cols[0].expr().ne(int_lit(0));
    let on = jp.l.cols[0].expr().eq(jp.r.cols[1].expr());
    let q = from(&u).filter(pre).left_join(from(&o), on).select(vec![jp.l.cols[0].expr()]);
    assert_eq!(
        q.sql(),
        "SELECT users.id FROM users LEFT JOIN orders ON (users.id = orders.user_id) \
         WHERE (users.id <> 0)"
    );
}

#[test]
fn three_filters_fold_left() {
    let t = users();
    let p = t.proxy();
    let q = from(&t)
        .filter(p.cols[0].expr().eq(int_lit(1)))
        .filter(p.cols[0].expr().ne(int_lit(2)))
        .filter(p.cols[0].expr().ne(int_lit(3)))
        .select(vec![p.cols[0].expr()]);
    assert_eq!(
        q.sql(),
        "SELECT users.id FROM users \
         WHERE (((users.id = 1) AND (users.id <> 2)) AND (users.id <> 3))"
    );
}

#[test]
fn sql_twice_is_byte_identical() {
    let t = users();
    let p = t.proxy();
    let q = from(&t)
        .filter(p.cols[0].expr().ne(int_lit(7)))
        .select(vec![p.cols[0].expr(), p.cols[1].expr()]);
    let first = q.sql();
    let second = q.sql();
    assert_eq!(first.as_bytes(), second.as_bytes());
}

#[test]
fn quote_in_string_literal_is_doubled() {
    let e = str_lit("O'Brien");
    assert_eq!(render_expr(&e.ast), "'O''Brien'");
}

#[test]
fn string_literal_without_quote_is_kept() {
    let e = str_lit("plain");
    assert_eq!(render_expr(&e.ast), "'plain'");
}

#[test]
fn params_render_one_based() {
    let e = param(0, SqlTy::Int).eq(param(1, SqlTy::Int));
    assert_eq!(render_expr(&e.ast), "($1 = $2)");
}

#[test]
fn integers_render_decimal() {
    assert_eq!(render_expr(&int_lit(0).ast), "0");
    assert_eq!(render_expr(&int_lit(12345).ast), "12345");
    assert_eq!(render_expr(&int_lit(-42).ast), "-42");
    assert_eq!(render_expr(&int_lit(i64::MAX).ast), "9223372036854775807");
    assert_eq!(render_expr(&int_lit(i64::MIN).ast), "-9223372036854775808");
}

#[test]
fn booleans_render_keywords() {
    assert_eq!(render_expr(&lit(true).ast), "TRUE");
    assert_eq!(render_expr(&lit(false).ast), "FALSE");
}

#[test]
fn empty_projection_renders_star() {
    let t = users();
    let q = from(&t).select(vec![]);
    assert_eq!(q.sql(), "SELECT * FROM users");
}

#[test]
fn not_renders_unary_node() {
    let e = lit(true).not();
    assert_eq!(render_expr(&e.ast), "(NOT TRUE)");
}

#[test]
fn and_or_render_parenthesized() {
    let e = lit(true).bitand(lit(false)).bitor(lit(true));
    assert_eq!(render_expr(&e.ast), "((TRUE AND FALSE) OR TRUE)");
}

#[test]
fn generic_binary_operator_renders() {
    let e = int_lit(1).bin("<", int_lit(2));
    assert_eq!(render_expr(&e.ast), "(1 < 2)");
}

#[test]
fn nested_sources_render_without_extra_parentheses() {
    let f = AstFrom::Join {
        kind: "LEFT".to_string(),
        left: Box::new(AstFrom::Table { name: "a".to_string() }),
        right: Box::new(AstFrom::Table { name: "b".to_string() }),
        on: AstExpr::Bool(true),
    };
    assert_eq!(render_from(&f), "a LEFT JOIN b ON TRUE");
}

#[test]
fn query_without_source_renders_projection_only() {
    let q = AstQuery { from: None, filter: None, projection: vec![AstExpr::Int(1)] };
    assert_eq!(q.render_sql(), "SELECT 1");
}

#[test]
fn cloned_expression_renders_identically() {
    let e = int_lit(5).eq(param(0, SqlTy::Int));
    let c = e.clone();
    assert_eq!(render_expr(&e.ast), render_expr(&c.ast));
}

#[test]
fn cloned_builder_diverges_independently() {
    let t = users();
    let p = t.proxy();
    let b = from(&t);
    let b2 = b.clone();
    let q1 = b.filter(p.cols[0].expr().eq(int_lit(1))).select(vec![p.cols[0].expr()]);
    let q2 = b2.select(vec![p.cols[0].expr()]);
    assert_eq!(q1.sql(), "SELECT users.id FROM users WHERE (users.id = 1)");
    assert_eq!(q2.sql(), "SELECT users.id FROM users");
}

#[test]
fn fetch_all_needs_transaction_and_returns_no_rows() {
    let t = users();
    let p = t.proxy();
    let q = from(&t).select(vec![p.cols[0].expr()]);
    let mut conn = Conn;
    let rows = conn.with_txn(|tx| q.fetch_all(tx));
    assert!(rows.is_empty());
}
