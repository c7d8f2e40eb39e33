//! The executable renderer: a deterministic recursive emitter that turns an
//! AST into SQL text, proved to produce exactly the text that the spec
//! renderer of `ast` describes.

use vstd::prelude::*;
use vstd::string::{StrSliceExecFns, StringExecFns};
use crate::ast::{
    spec_dec, spec_digit, spec_escaped, spec_escaped_char, spec_int_text, spec_render_expr,
    spec_render_from, spec_render_projection, spec_render_query, AstExpr, AstFrom, AstQuery,
};

verus! {

/// The one-character string for a decimal digit.
fn digit_str(d: u128) -> (r: &'static str)
    requires
        d < 10,
    ensures
        r@ == seq![spec_digit(d as nat)],
{
    if d == 0 {
        proof {
            reveal_strlit("0");
            assert("0"@ =~= seq![spec_digit(0)]);
        }
        "0"
    } else if d == 1 {
        proof {
            reveal_strlit("1");
            assert("1"@ =~= seq![spec_digit(1)]);
        }
        "1"
    } else if d == 2 {
        proof {
            reveal_strlit("2");
            assert("2"@ =~= seq![spec_digit(2)]);
        }
        "2"
    } else if d == 3 {
        proof {
            reveal_strlit("3");
            assert("3"@ =~= seq![spec_digit(3)]);
        }
        "3"
    } else if d == 4 {
        proof {
            reveal_strlit("4");
            assert("4"@ =~= seq![spec_digit(4)]);
        }
        "4"
    } else if d == 5 {
        proof {
            reveal_strlit("5");
            assert("5"@ =~= seq![spec_digit(5)]);
        }
        "5"
    } else if d == 6 {
        proof {
            reveal_strlit("6");
            assert("6"@ =~= seq![spec_digit(6)]);
        }
        "6"
    } else if d == 7 {
        proof {
            reveal_strlit("7");
            assert("7"@ =~= seq![spec_digit(7)]);
        }
        "7"
    } else if d == 8 {
        proof {
            reveal_strlit("8");
            assert("8"@ =~= seq![spec_digit(8)]);
        }
        "8"
    } else {
        proof {
            reveal_strlit("9");
            assert("9"@ =~= seq![spec_digit(9)]);
        }
        "9"
    }
}

/// The decimal text of an unsigned number.
pub fn dec_text(n: u128) -> (r: String)
    ensures
        r@ == spec_dec(n as nat),
    decreases n,
{
    if n < 10 {
        String::from_str(digit_str(n))
    } else {
        let mut s = dec_text(n / 10);
        s.append(digit_str(n % 10));
        proof {
            assert(s@ =~= spec_dec((n as nat) / 10).push(spec_digit((n as nat) % 10)));
        }
        s
    }
}

/// The decimal text of a signed number, with a leading minus sign when
/// negative.
pub fn int_text(i: i64) -> (r: String)
    ensures
        r@ == spec_int_text(i as int),
{
    if i < 0 {
        let mag: u128 = (-(i as i128)) as u128;
        let mut s = String::from_str("-");
        let d = dec_text(mag);
        s.append(d.as_str());
        proof {
            reveal_strlit("-");
            assert(s@ =~= seq!['-'] + spec_dec((-(i as int)) as nat));
        }
        s
    } else {
        dec_text(i as u128)
    }
}

/// Escaping distributes over concatenation.
pub proof fn lemma_escaped_append(a: Seq<char>, b: Seq<char>)
    ensures
        spec_escaped(a + b) == spec_escaped(a) + spec_escaped(b),
    decreases a.len(),
{
    if a.len() == 0 {
        assert(a + b =~= b);
        assert(spec_escaped(a) + spec_escaped(b) =~= spec_escaped(b));
    } else {
        lemma_escaped_append(a.drop_first(), b);
        assert((a + b).drop_first() =~= a.drop_first() + b);
        assert((a + b)[0] == a[0]);
        assert(spec_escaped(a + b) =~= spec_escaped(a) + spec_escaped(b));
    }
}

/// Escaping a single character yields that character's escape.
pub proof fn lemma_escaped_singleton(c: char)
    ensures
        spec_escaped(seq![c]) == spec_escaped_char(c),
{
    assert(seq![c].len() == 1);
    assert(seq![c][0] == c);
    assert(seq![c].drop_first() =~= Seq::<char>::empty());
    assert(spec_escaped(seq![c]) == spec_escaped_char(c) + spec_escaped(seq![c].drop_first()));
    assert(spec_escaped_char(c) + spec_escaped(Seq::<char>::empty()) =~= spec_escaped_char(c));
}

/// The body of a string literal: every single quote doubled, all other
/// characters kept.
pub fn escape_str(s: &str) -> (r: String)
    ensures
        r@ == spec_escaped(s@),
{
    let len = s.unicode_len();
    let mut out = String::new();
    let mut i: usize = 0;
    proof {
        assert(s@.take(0) =~= Seq::<char>::empty());
        assert(out@ =~= spec_escaped(s@.take(0)));
    }
    while i < len
        invariant
            len == s@.len(),
            i <= len,
            out@ == spec_escaped(s@.take(i as int)),
        decreases len - i,
    {
        let c = s.get_char(i);
        if c == '\'' {
            out.append("''");
            proof {
                reveal_strlit("''");
                assert("''"@ =~= spec_escaped_char(s@[i as int]));
            }
        } else {
            let piece = s.substring_char(i, i + 1);
            proof {
                assert(piece@ =~= seq![s@[i as int]]);
            }
            out.append(piece);
        }
        proof {
            lemma_escaped_append(s@.take(i as int), seq![s@[i as int]]);
            lemma_escaped_singleton(s@[i as int]);
            assert(s@.take(i as int + 1) =~= s@.take(i as int) + seq![s@[i as int]]);
            assert(out@ =~= spec_escaped(s@.take(i as int + 1)));
        }
        i = i + 1;
    }
    proof {
        assert(s@.take(len as int) =~= s@);
    }
    out
}

/// The SQL text of an expression node.
pub fn render_expr(e: &AstExpr) -> (r: String)
    ensures
        r@ == spec_render_expr(e@),
    decreases e,
{
    match e {
        AstExpr::Column { table, col } => {
            let mut s = table.clone();
            s.append(".");
            s.append(col.as_str());
            s
        },
        AstExpr::Param { idx } => {
            let n: u128 = (*idx as u128) + 1;
            let mut s = String::from_str("$");
            let d = dec_text(n);
            s.append(d.as_str());
            s
        },
        AstExpr::Bool(b) => {
            if *b {
                String::from_str("TRUE")
            } else {
                String::from_str("FALSE")
            }
        },
        AstExpr::Int(i) => int_text(*i),
        AstExpr::Str(st) => {
            let mut s = String::from_str("'");
            let body = escape_str(st.as_str());
            s.append(body.as_str());
            s.append("'");
            s
        },
        AstExpr::Not(inner) => {
            let mut s = String::from_str("(NOT ");
            let t = render_expr(&**inner);
            s.append(t.as_str());
            s.append(")");
            s
        },
        AstExpr::BinOp { op, lhs, rhs } => {
            let mut s = String::from_str("(");
            let l = render_expr(&**lhs);
            s.append(l.as_str());
            s.append(" ");
            s.append(op.as_str());
            s.append(" ");
            let r2 = render_expr(&**rhs);
            s.append(r2.as_str());
            s.append(")");
            s
        },
    }
}

/// The SQL text of a source node.
pub fn render_from(f: &AstFrom) -> (r: String)
    ensures
        r@ == spec_render_from(f@),
    decreases f,
{
    match f {
        AstFrom::Table { name } => name.clone(),
        AstFrom::Join { kind, left, right, on } => {
            let mut s = render_from(&**left);
            s.append(" ");
            s.append(kind.as_str());
            s.append(" JOIN ");
            let r2 = render_from(&**right);
            s.append(r2.as_str());
            s.append(" ON ");
            let c = render_expr(on);
            s.append(c.as_str());
            s
        },
    }
}

impl AstQuery {
    /// The SQL text of the whole query:
    /// `SELECT <projection or *> [FROM <source>] [WHERE <filter>]`.
    pub fn render_sql(&self) -> (r: String)
        ensures
            r@ == spec_render_query(self@),
    {
        let ghost pm = self@.projection;
        let mut s = String::from_str("SELECT ");
        if self.projection.len() == 0 {
            s.append("*");
        } else {
            let mut i: usize = 0;
            proof {
                assert(pm.take(0) =~= Seq::<crate::ast::ExprModel>::empty());
                assert(s@ =~= "SELECT "@ + spec_render_projection(pm.take(0)));
            }
            while i < self.projection.len()
                invariant
                    i <= self.projection.len(),
                    pm == self@.projection,
                    pm.len() == self.projection.len(),
                    s@ == "SELECT "@ + spec_render_projection(pm.take(i as int)),
                decreases self.projection.len() - i,
            {
                if i > 0 {
                    s.append(", ");
                }
                let t = render_expr(&self.projection[i]);
                s.append(t.as_str());
                proof {
                    let j = i as int;
                    assert(self.projection[j]@ == pm[j]);
                    if j == 0 {
                        assert(pm.take(1).len() == 1);
                        assert(pm.take(1)[0] == pm[0]);
                        assert(s@ =~= "SELECT "@ + spec_render_projection(pm.take(1)));
                    } else {
                        assert(pm.take(j + 1).drop_last() =~= pm.take(j));
                        assert(pm.take(j + 1).last() == pm[j]);
                        assert(spec_render_projection(pm.take(j + 1)) == spec_render_projection(
                            pm.take(j),
                        ) + ", "@ + spec_render_expr(pm[j]));
                        assert(s@ =~= "SELECT "@ + spec_render_projection(pm.take(j + 1)));
                    }
                }
                i = i + 1;
            }
            proof {
                assert(pm.take(self.projection.len() as int) =~= pm);
            }
        }
        match &self.from {
            Some(fr) => {
                s.append(" FROM ");
                let t = render_from(fr);
                s.append(t.as_str());
            },
            None => {},
        }
        match &self.filter {
            Some(w) => {
                s.append(" WHERE ");
                let t = render_expr(w);
                s.append(t.as_str());
            },
            None => {},
        }
        proof {
            assert(s@ =~= spec_render_query(self@));
        }
        s
    }
}

} // verus!
