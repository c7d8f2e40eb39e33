//! The untyped abstract syntax: expression nodes, source nodes and the query
//! itself, together with their ghost models over `Seq<char>` and the
//! specification of how each renders to SQL text.

use vstd::prelude::*;

verus! {

/// An expression node: column reference, positional parameter, literal, a
/// unary `NOT`, or a generic binary operation.
pub enum AstExpr {
    Column { table: String, col: String },
    Param { idx: u64 },
    Bool(bool),
    Int(i64),
    Str(String),
    Not(Box<AstExpr>),
    BinOp { op: String, lhs: Box<AstExpr>, rhs: Box<AstExpr> },
}

/// A source node: a named table, or a join of two sources with a kind label
/// and an `ON` condition.
pub enum AstFrom {
    Table { name: String },
    Join { kind: String, left: Box<AstFrom>, right: Box<AstFrom>, on: AstExpr },
}

/// A whole query: optional source, optional filter, ordered projection list.
pub struct AstQuery {
    pub from: Option<AstFrom>,
    pub filter: Option<AstExpr>,
    pub projection: Vec<AstExpr>,
}

/// The mathematical model of an expression node: the same tree with every
/// piece of text taken as a sequence of characters.
#[verifier::ext_equal]
pub ghost enum ExprModel {
    Column { table: Seq<char>, col: Seq<char> },
    Param { idx: nat },
    Bool { b: bool },
    Int { i: int },
    Str { s: Seq<char> },
    Not { inner: Box<ExprModel> },
    BinOp { op: Seq<char>, lhs: Box<ExprModel>, rhs: Box<ExprModel> },
}

/// The mathematical model of a source node.
#[verifier::ext_equal]
pub ghost enum FromModel {
    Table { name: Seq<char> },
    Join { kind: Seq<char>, left: Box<FromModel>, right: Box<FromModel>, on: ExprModel },
}

/// The mathematical model of a query.
#[verifier::ext_equal]
pub ghost struct QueryModel {
    pub from: Option<FromModel>,
    pub filter: Option<ExprModel>,
    pub projection: Seq<ExprModel>,
}

pub open spec fn expr_model(e: AstExpr) -> ExprModel
    decreases e,
{
    match e {
        AstExpr::Column { table, col } => ExprModel::Column { table: table@, col: col@ },
        AstExpr::Param { idx } => ExprModel::Param { idx: idx as nat },
        AstExpr::Bool(b) => ExprModel::Bool { b },
        AstExpr::Int(i) => ExprModel::Int { i: i as int },
        AstExpr::Str(s) => ExprModel::Str { s: s@ },
        AstExpr::Not(inner) => ExprModel::Not { inner: Box::new(expr_model(*inner)) },
        AstExpr::BinOp { op, lhs, rhs } => ExprModel::BinOp {
            op: op@,
            lhs: Box::new(expr_model(*lhs)),
            rhs: Box::new(expr_model(*rhs)),
        },
    }
}

impl View for AstExpr {
    type V = ExprModel;

    open spec fn view(&self) -> ExprModel {
        expr_model(*self)
    }
}

pub open spec fn from_model(f: AstFrom) -> FromModel
    decreases f,
{
    match f {
        AstFrom::Table { name } => FromModel::Table { name: name@ },
        AstFrom::Join { kind, left, right, on } => FromModel::Join {
            kind: kind@,
            left: Box::new(from_model(*left)),
            right: Box::new(from_model(*right)),
            on: on@,
        },
    }
}

impl View for AstFrom {
    type V = FromModel;

    open spec fn view(&self) -> FromModel {
        from_model(*self)
    }
}

pub open spec fn opt_expr_model(o: Option<AstExpr>) -> Option<ExprModel> {
    match o {
        None => None,
        Some(e) => Some(e@),
    }
}

pub open spec fn opt_from_model(o: Option<AstFrom>) -> Option<FromModel> {
    match o {
        None => None,
        Some(f) => Some(f@),
    }
}

/// The models of a sequence of expression nodes, in order.
pub open spec fn expr_models(s: Seq<AstExpr>) -> Seq<ExprModel> {
    s.map(|i: int, e: AstExpr| e@)
}

impl View for AstQuery {
    type V = QueryModel;

    open spec fn view(&self) -> QueryModel {
        QueryModel {
            from: opt_from_model(self.from),
            filter: opt_expr_model(self.filter),
            projection: expr_models(self.projection@),
        }
    }
}

impl Clone for AstExpr {
    /// A deep copy with the same model.
    fn clone(&self) -> (r: Self)
        ensures
            r@ == self@,
        decreases self,
    {
        match self {
            AstExpr::Column { table, col } => AstExpr::Column {
                table: table.clone(),
                col: col.clone(),
            },
            AstExpr::Param { idx } => AstExpr::Param { idx: *idx },
            AstExpr::Bool(b) => AstExpr::Bool(*b),
            AstExpr::Int(i) => AstExpr::Int(*i),
            AstExpr::Str(s) => AstExpr::Str(s.clone()),
            AstExpr::Not(inner) => AstExpr::Not(Box::new((**inner).clone())),
            AstExpr::BinOp { op, lhs, rhs } => AstExpr::BinOp {
                op: op.clone(),
                lhs: Box::new((**lhs).clone()),
                rhs: Box::new((**rhs).clone()),
            },
        }
    }
}

impl Clone for AstFrom {
    /// A deep copy with the same model.
    fn clone(&self) -> (r: Self)
        ensures
            r@ == self@,
        decreases self,
    {
        match self {
            AstFrom::Table { name } => AstFrom::Table { name: name.clone() },
            AstFrom::Join { kind, left, right, on } => AstFrom::Join {
                kind: kind.clone(),
                left: Box::new((**left).clone()),
                right: Box::new((**right).clone()),
                on: on.clone(),
            },
        }
    }
}

/// A deep copy of an expression list, element for element.
fn clone_exprs(v: &Vec<AstExpr>) -> (r: Vec<AstExpr>)
    ensures
        expr_models(r@) == expr_models(v@),
{
    let mut out: Vec<AstExpr> = Vec::new();
    let mut i: usize = 0;
    while i < v.len()
        invariant
            i <= v.len(),
            out@.len() == i,
            forall|j: int| 0 <= j < i ==> (#[trigger] out@[j])@ == v@[j]@,
        decreases v.len() - i,
    {
        out.push(v[i].clone());
        i = i + 1;
    }
    proof {
        assert forall|j: int| 0 <= j < v@.len() implies expr_models(out@)[j] == expr_models(v@)[j] by {
            assert(expr_models(out@)[j] == out@[j]@);
            assert(expr_models(v@)[j] == v@[j]@);
        }
        assert(expr_models(out@) =~= expr_models(v@));
    }
    out
}

impl Clone for AstQuery {
    /// A deep copy with the same model.
    fn clone(&self) -> (r: Self)
        ensures
            r@ == self@,
    {
        let r = AstQuery {
            from: match &self.from {
                Some(f) => Some(f.clone()),
                None => None,
            },
            filter: match &self.filter {
                Some(w) => Some(w.clone()),
                None => None,
            },
            projection: clone_exprs(&self.projection),
        };
        proof {
            assert(r@ =~= self@);
        }
        r
    }
}

impl Default for AstQuery {
    /// The empty query: no source, no filter, no projection.
    fn default() -> (q: Self)
        ensures
            q@.from is None,
            q@.filter is None,
            q@.projection == Seq::<ExprModel>::empty(),
    {
        let q = AstQuery { from: None, filter: None, projection: Vec::new() };
        proof {
            assert(q@.projection =~= Seq::<ExprModel>::empty());
        }
        q
    }
}

/// The decimal digit character for `n` in `0 ..= 9`.
pub open spec fn spec_digit(n: nat) -> char {
    if n == 0 {
        '0'
    } else if n == 1 {
        '1'
    } else if n == 2 {
        '2'
    } else if n == 3 {
        '3'
    } else if n == 4 {
        '4'
    } else if n == 5 {
        '5'
    } else if n == 6 {
        '6'
    } else if n == 7 {
        '7'
    } else if n == 8 {
        '8'
    } else {
        '9'
    }
}

/// The decimal text of a natural number, most significant digit first.
pub open spec fn spec_dec(n: nat) -> Seq<char>
    decreases n,
{
    if n < 10 {
        seq![spec_digit(n)]
    } else {
        spec_dec(n / 10).push(spec_digit(n % 10))
    }
}

/// The decimal text of an integer: a minus sign before the magnitude when
/// negative.
pub open spec fn spec_int_text(i: int) -> Seq<char> {
    if i < 0 {
        seq!['-'] + spec_dec((-i) as nat)
    } else {
        spec_dec(i as nat)
    }
}

/// How one character of a string literal renders: a single quote is doubled,
/// every other character stands as itself.
pub open spec fn spec_escaped_char(c: char) -> Seq<char> {
    if c == '\'' {
        seq!['\'', '\'']
    } else {
        seq![c]
    }
}

/// How the body of a string literal renders, character by character.
pub open spec fn spec_escaped(s: Seq<char>) -> Seq<char>
    decreases s.len(),
{
    if s.len() == 0 {
        Seq::empty()
    } else {
        spec_escaped_char(s[0]) + spec_escaped(s.drop_first())
    }
}

/// The SQL text of an expression.  Binary operations are fully parenthesized,
/// so no operator-precedence reasoning is ever needed and distinct trees
/// render unambiguously.
pub open spec fn spec_render_expr(e: ExprModel) -> Seq<char>
    decreases e,
{
    match e {
        ExprModel::Column { table, col } => table + "."@ + col,
        ExprModel::Param { idx } => "$"@ + spec_dec(idx + 1),
        ExprModel::Bool { b } => if b {
            "TRUE"@
        } else {
            "FALSE"@
        },
        ExprModel::Int { i } => spec_int_text(i),
        ExprModel::Str { s } => "'"@ + spec_escaped(s) + "'"@,
        ExprModel::Not { inner } => "(NOT "@ + spec_render_expr(*inner) + ")"@,
        ExprModel::BinOp { op, lhs, rhs } => "("@ + spec_render_expr(*lhs) + " "@ + op + " "@
            + spec_render_expr(*rhs) + ")"@,
    }
}

/// The SQL text of a source: a table renders as its bare name, a join as
/// `<left> <KIND> JOIN <right> ON <condition>`, recursing left to right so
/// chained joins associate left-deep.
pub open spec fn spec_render_from(f: FromModel) -> Seq<char>
    decreases f,
{
    match f {
        FromModel::Table { name } => name,
        FromModel::Join { kind, left, right, on } => spec_render_from(*left) + " "@ + kind
            + " JOIN "@ + spec_render_from(*right) + " ON "@ + spec_render_expr(on),
    }
}

/// The projection list: each expression rendered in order, joined with `, `.
pub open spec fn spec_render_projection(es: Seq<ExprModel>) -> Seq<char>
    decreases es.len(),
{
    if es.len() == 0 {
        Seq::empty()
    } else if es.len() == 1 {
        spec_render_expr(es[0])
    } else {
        spec_render_projection(es.drop_last()) + ", "@ + spec_render_expr(es.last())
    }
}

/// The SQL text of a whole query:
/// `SELECT <projection or *> [FROM <source>] [WHERE <filter>]`.
pub open spec fn spec_render_query(q: QueryModel) -> Seq<char> {
    "SELECT "@ + (if q.projection.len() == 0 {
        "*"@
    } else {
        spec_render_projection(q.projection)
    }) + (match q.from {
        Some(f) => " FROM "@ + spec_render_from(f),
        None => Seq::empty(),
    }) + (match q.filter {
        Some(w) => " WHERE "@ + spec_render_expr(w),
        None => Seq::empty(),
    })
}

} // verus!
