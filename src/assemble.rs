//! The text of each special form, put together from the codes of the
//! arguments that the form expands.
use vstd::prelude::*;
use vstd::string::*;

use crate::code::{
    assemble, binary, bindings_text, captures_text, children, join, names, paren, params_text,
    symbol_name, to_strings, Failure, Fold,
};
use crate::expand::{lemma_codes_len, lemma_models, lemma_value_codes_len};
use crate::expr::{model, models, LispExpr, Sexp};
use crate::table::{shape_error, Op};
use crate::text::{fold_text, join_text, views};

verus! {

pub proof fn lemma_children_len(op: Op, xs: Seq<Sexp>)
    requires
        xs.len() >= 1,
        shape_error(op, xs.subrange(1, xs.len() as int)) is None,
        children(op, xs) is Ok,
    ensures
        children(op, xs)->Ok_0.len() == match op {
            Op::Let => match xs[1] {
                Sexp::Vector(bs) => bs.len() / 2 + (xs.len() - 2) as nat,
                _ => 0,
            },
            Op::Defn => (xs.len() - 3) as nat,
            Op::WithVars => (xs.len() - 2) as nat,
            Op::Dotimes => 2,
            _ => (xs.len() - 1) as nat,
        },
{
    let args = xs.subrange(1, xs.len() as int);
    if xs.len() >= 2 {
        match op {
            Op::Let => {
                assert(args[0] == xs[1]);
                match xs[1] {
                    Sexp::Vector(bs) => {
                        lemma_value_codes_len(bs);
                        lemma_codes_len(xs.subrange(2, xs.len() as int));
                    },
                    _ => {},
                }
            },
            Op::Defn => lemma_codes_len(xs.subrange(3, xs.len() as int)),
            Op::WithVars => lemma_codes_len(xs.subrange(2, xs.len() as int)),
            Op::Dotimes => lemma_codes_len(xs.subrange(2, xs.len() as int)),
            _ => lemma_codes_len(args),
        }
    }
}

pub(crate) fn paren_text(c: &str) -> (r: String)
    ensures
        r@ == paren(c@),
{
    let mut r = String::new();
    r.append("(");
    r.append(c);
    r.append(")");
    assert(r@ =~= paren(c@));
    r
}

/// The name of a symbol; empty for any other expression.
fn name_text(e: &LispExpr) -> (r: String)
    ensures
        r@ == symbol_name(e@),
{
    let mut r = String::new();
    match e {
        LispExpr::Symbol(n) => r.append(n.as_str()),
        _ => {},
    }
    assert(r@ =~= symbol_name(e@));
    r
}

/// The text of the arithmetic, logical and min/max folds.
fn assemble_fold(op: Op, n: usize, cs: &Vec<String>) -> (r: String)
    requires
        op == Op::Add || op == Op::Sub || op == Op::Mul || op == Op::Div || op == Op::And
            || op == Op::Or || op == Op::Min || op == Op::Max,
        cs.len() == n,
        op == Op::Sub ==> n >= 1,
        (op == Op::Div || op == Op::And || op == Op::Or || op == Op::Min || op == Op::Max) ==> n >= 2,
    ensures
        forall|callee: Seq<char>, args: Seq<Sexp>| args.len() == n ==>
            r@ == #[trigger] assemble(op, callee, args, views(cs@)),
{
    let ghost v = views(cs@);
    assert(v.subrange(0, n as int) =~= v);
    assert(n >= 1 ==> v.subrange(1, n as int) =~= v.drop_first());
    let mut init = String::new();
    match op {
        Op::Add | Op::Mul => {
            if n == 1 {
                init.append(cs[0].as_str());
                assert(init@ =~= v[0]);
                return init;
            }
            match op {
                Op::Add => init.append("0"),
                _ => init.append("1"),
            }
            if n == 0 {
                return init;
            }
            match op {
                Op::Add => fold_text(Fold::Sum, init, cs, 0),
                _ => fold_text(Fold::Product, init, cs, 0),
            }
        },
        Op::And => {
            init.append("true");
            fold_text(Fold::Conjunction, init, cs, 0)
        },
        Op::Or => {
            init.append("false");
            fold_text(Fold::Disjunction, init, cs, 0)
        },
        _ => {
            let first = paren_text(cs[0].as_str());
            if op == Op::Sub && n == 1 {
                init.append("-");
                init.append(first.as_str());
                assert(init@ =~= "-"@ + paren(v[0]));
                return init;
            }
            match op {
                Op::Sub => fold_text(Fold::Difference, first, cs, 1),
                Op::Div => fold_text(Fold::Quotient, first, cs, 1),
                Op::Min => fold_text(Fold::Minimum, first, cs, 1),
                _ => fold_text(Fold::Maximum, first, cs, 1),
            }
        },
    }
}

/// The text of the two-operand comparisons and the remainder.
fn assemble_binary(op: Op, cs: &Vec<String>) -> (r: String)
    requires
        op == Op::Eq || op == Op::Lt || op == Op::Gt || op == Op::Ge || op == Op::Le || op == Op::Ne
            || op == Op::Rem,
        cs.len() == 2,
    ensures
        forall|callee: Seq<char>, args: Seq<Sexp>|
            r@ == #[trigger] assemble(op, callee, args, views(cs@)),
{
    let ghost v = views(cs@);
    let mut r = paren_text(cs[0].as_str());
    match op {
        Op::Eq => r.append(" == "),
        Op::Lt => r.append(" < "),
        Op::Gt => r.append(" > "),
        Op::Ge => r.append(" >= "),
        Op::Le => r.append(" <= "),
        Op::Ne => r.append(" != "),
        _ => r.append(" % "),
    }
    let right = paren_text(cs[1].as_str());
    r.append(right.as_str());
    assert forall|callee: Seq<char>, args: Seq<Sexp>|
        r@ == #[trigger] assemble(op, callee, args, v) by {
        match op {
            Op::Eq => assert(r@ =~= binary(v, " == "@)),
            Op::Lt => assert(r@ =~= binary(v, " < "@)),
            Op::Gt => assert(r@ =~= binary(v, " > "@)),
            Op::Ge => assert(r@ =~= binary(v, " >= "@)),
            Op::Le => assert(r@ =~= binary(v, " <= "@)),
            Op::Ne => assert(r@ =~= binary(v, " != "@)),
            _ => assert(r@ =~= binary(v, " % "@)),
        }
    }
    r
}

/// The text of the one-operand forms.
fn assemble_unary(op: Op, cs: &Vec<String>) -> (r: String)
    requires
        op == Op::Not || op == Op::First || op == Op::Rest || op == Op::Count || op == Op::Abs
            || op == Op::Inc || op == Op::Dec || op == Op::Zero || op == Op::Pos || op == Op::Neg
            || op == Op::Even || op == Op::Odd,
        cs.len() == 1,
    ensures
        forall|callee: Seq<char>, args: Seq<Sexp>|
            r@ == #[trigger] assemble(op, callee, args, views(cs@)),
{
    let ghost v = views(cs@);
    let c = cs[0].as_str();
    let mut r = String::new();
    match op {
        Op::Not => {
            r.append("!");
            r.append("(");
            r.append(c);
            r.append(")");
        },
        Op::Rest => {
            r.append("{ let v = ");
            r.append(c);
            r.append("; if v.len() > 1 { v[1..].to_vec() } else { vec![] } }");
        },
        Op::Abs => {
            r.append("(");
            r.append("(");
            r.append(c);
            r.append(")");
            r.append(" as i32).abs()");
        },
        _ => {
            r.append("(");
            r.append(c);
            r.append(")");
            match op {
                Op::First => r.append(".first().copied().unwrap_or_default()"),
                Op::Count => r.append(".len()"),
                Op::Inc => r.append(" + 1"),
                Op::Dec => r.append(" - 1"),
                Op::Zero => r.append(" == 0"),
                Op::Pos => r.append(" > 0"),
                Op::Neg => r.append(" < 0"),
                Op::Even => r.append(" % 2 == 0"),
                _ => r.append(" % 2 != 0"),
            }
        },
    }
    assert forall|callee: Seq<char>, args: Seq<Sexp>|
        r@ == #[trigger] assemble(op, callee, args, v) by {
        let p = paren(v[0]);
        match op {
            Op::Not => assert(r@ =~= "!"@ + p),
            Op::Rest => assert(r@ =~= "{ let v = "@ + v[0]
                + "; if v.len() > 1 { v[1..].to_vec() } else { vec![] } }"@),
            Op::Abs => assert(r@ =~= "("@ + p + " as i32).abs()"@),
            Op::First => assert(r@ =~= p + ".first().copied().unwrap_or_default()"@),
            Op::Count => assert(r@ =~= p + ".len()"@),
            Op::Inc => assert(r@ =~= p + " + 1"@),
            Op::Dec => assert(r@ =~= p + " - 1"@),
            Op::Zero => assert(r@ =~= p + " == 0"@),
            Op::Pos => assert(r@ =~= p + " > 0"@),
            Op::Neg => assert(r@ =~= p + " < 0"@),
            Op::Even => assert(r@ =~= p + " % 2 == 0"@),
            _ => assert(r@ =~= p + " % 2 != 0"@),
        }
    }
    r
}

/// The text of the conditional, call, block, loop, recovery, list, string,
/// printing and plain-call forms.
fn assemble_control(op: Op, callee: &str, n: usize, cs: &Vec<String>) -> (r: String)
    requires
        op == Op::If || op == Op::Call || op == Op::Do || op == Op::While || op == Op::Try
            || op == Op::Cons || op == Op::Str || op == Op::Println || op == Op::Plain,
        cs.len() == n,
        op == Op::If ==> 2 <= n <= 3,
        op == Op::Try ==> 1 <= n <= 2,
        (op == Op::While || op == Op::Cons) ==> n == 2,
        (op == Op::Call || op == Op::Println) ==> n >= 1,
    ensures
        forall|args: Seq<Sexp>| args.len() == n ==>
            r@ == #[trigger] assemble(op, callee@, args, views(cs@)),
{
    let ghost v = views(cs@);
    assert(v.subrange(0, n as int) =~= v);
    assert(n >= 1 ==> v.subrange(1, n as int) =~= v.drop_first());
    let mut r = String::new();
    match op {
        Op::If => {
            r.append("if ");
            let c = paren_text(cs[0].as_str());
            r.append(c.as_str());
            r.append(" { ");
            r.append(cs[1].as_str());
            if n == 2 {
                r.append(" }");
                assert(r@ =~= "if "@ + paren(v[0]) + " { "@ + v[1] + " }"@);
            } else {
                r.append(" } else { ");
                r.append(cs[2].as_str());
                r.append(" }");
                assert(r@ =~= "if "@ + paren(v[0]) + " { "@ + v[1] + " } else { "@ + v[2] + " }"@);
            }
        },
        Op::Call => {
            let f = paren_text(cs[0].as_str());
            r.append(f.as_str());
            r.append("(");
            let a = join_text(cs, 1, ", ");
            r.append(a.as_str());
            r.append(")");
            assert(r@ =~= paren(v[0]) + "("@ + join(v.drop_first(), ", "@) + ")"@);
        },
        Op::Do => {
            if n == 0 {
                r.append("{ }");
            } else {
                r.append("{ ");
                let a = join_text(cs, 0, "; ");
                r.append(a.as_str());
                r.append(" }");
                assert(r@ =~= "{ "@ + join(v, "; "@) + " }"@);
            }
        },
        Op::While => {
            r.append("{ let mut result = (); while ");
            let c = paren_text(cs[0].as_str());
            r.append(c.as_str());
            r.append(" { result = ");
            r.append(cs[1].as_str());
            r.append("; } result }");
            assert(r@ =~= "{ let mut result = (); while "@ + paren(v[0]) + " { result = "@ + v[1]
                + "; } result }"@);
        },
        Op::Try => {
            r.append("{ let result = std::panic::catch_unwind(|| { ");
            r.append(cs[0].as_str());
            r.append(" }); match result { Ok(val) => val, Err(_) => ");
            let ghost fallback = if n == 2 {
                v[1]
            } else {
                "panic!(\"Unhandled error in try block\")"@
            };
            if n == 2 {
                r.append(cs[1].as_str());
            } else {
                r.append("panic!(\"Unhandled error in try block\")");
            }
            r.append(", } }");
            assert(r@ =~= "{ let result = std::panic::catch_unwind(|| { "@ + v[0]
                + " }); match result { Ok(val) => val, Err(_) => "@ + fallback + ", } }"@);
        },
        Op::Cons => {
            r.append("{ let mut result = vec![");
            let c = paren_text(cs[0].as_str());
            r.append(c.as_str());
            r.append("]; result.extend(");
            r.append(cs[1].as_str());
            r.append("); result }");
            assert(r@ =~= "{ let mut result = vec!["@ + paren(v[0]) + "]; result.extend("@ + v[1]
                + "); result }"@);
        },
        Op::Str => {
            if n == 0 {
                r.append("String::new()");
            } else {
                let mut parts: Vec<String> = Vec::new();
                let mut i: usize = 0;
                while i < n
                    invariant
                        i <= n,
                        n == cs.len(),
                        v == views(cs@),
                        views(parts@) =~= to_strings(v.subrange(0, i as int)),
                    decreases n - i,
                {
                    let mut p = paren_text(cs[i].as_str());
                    p.append(".to_string()");
                    let ghost before = parts@;
                    let ghost piece = p@;
                    parts.push(p);
                    proof {
                        assert(piece =~= paren(v[i as int]) + ".to_string()"@);
                        assert(views(parts@) =~= views(before).push(piece));
                        assert(to_strings(v.subrange(0, i + 1 as int)) =~= to_strings(
                            v.subrange(0, i as int),
                        ).push(piece));
                    }
                    i = i + 1;
                }
                assert(views(parts@).subrange(0, n as int) =~= to_strings(v));
                r.append("[");
                let a = join_text(&parts, 0, ", ");
                r.append(a.as_str());
                r.append("].join(\"\")");
                assert(r@ =~= "["@ + join(to_strings(v), ", "@) + "].join(\"\")"@);
            }
        },
        Op::Println => {
            if n == 1 {
                r.append("println!(\"{:?}\", ");
                r.append(cs[0].as_str());
                r.append(")");
                assert(r@ =~= "println!(\"{:?}\", "@ + v[0] + ")"@);
            } else {
                r.append("println!(\"{:?}\", (");
                let a = join_text(cs, 0, ", ");
                r.append(a.as_str());
                r.append("))");
                assert(r@ =~= "println!(\"{:?}\", ("@ + join(v, ", "@) + "))"@);
            }
        },
        _ => {
            r.append(callee);
            r.append("(");
            let a = join_text(cs, 0, ", ");
            r.append(a.as_str());
            r.append(")");
            assert(r@ =~= callee@ + "("@ + join(v, ", "@) + ")"@);
        },
    }
    r
}

/// `let name = value; ` for each pair of a binding vector.
fn bindings_of(bs: &Vec<LispExpr>, vs: &Vec<String>) -> (r: String)
    requires
        vs.len() >= bs.len() / 2,
    ensures
        r@ == bindings_text(models(bs@), views(vs@), (bs.len() / 2) as nat),
{
    proof {
        lemma_models(bs@);
    }
    let ghost m = models(bs@);
    let ghost v = views(vs@);
    let half = bs.len() / 2;
    let mut r = String::new();
    let mut k: usize = 0;
    while k < half
        invariant
            k <= half,
            half == bs.len() / 2,
            vs.len() >= half,
            m == models(bs@),
            v == views(vs@),
            m.len() == bs.len(),
            forall|j: int| 0 <= j < bs.len() ==> #[trigger] m[j] == model(bs@[j]),
            r@ == bindings_text(m, v, k as nat),
        decreases half - k,
    {
        r.append("let ");
        let name = name_text(&bs[2 * k]);
        r.append(name.as_str());
        r.append(" = ");
        r.append(vs[k].as_str());
        r.append("; ");
        assert(r@ =~= bindings_text(m, v, (k + 1) as nat));
        k = k + 1;
    }
    r
}

/// `p: i32, ...` for the parameter symbols `ps`.
fn params_of(ps: &Vec<LispExpr>) -> (r: String)
    ensures
        r@ == params_text(names(models(ps@)), ps.len() as nat),
{
    proof {
        lemma_models(ps@);
    }
    let ghost ns = names(models(ps@));
    let mut r = String::new();
    let mut k: usize = 0;
    while k < ps.len()
        invariant
            k <= ps.len(),
            ns == names(models(ps@)),
            models(ps@).len() == ps.len(),
            forall|j: int| 0 <= j < ps.len() ==> #[trigger] models(ps@)[j] == model(ps@[j]),
            r@ == params_text(ns, k as nat),
        decreases ps.len() - k,
    {
        if k > 0 {
            r.append(", ");
        }
        let name = name_text(&ps[k]);
        assert(name@ == ns[k as int]);
        r.append(name.as_str());
        r.append(": i32");
        assert(r@ =~= params_text(ns, (k + 1) as nat));
        k = k + 1;
    }
    r
}

/// `let v = v; ` for each variable symbol of `vs`.
fn captures_of(vs: &Vec<LispExpr>) -> (r: String)
    ensures
        r@ == captures_text(names(models(vs@)), vs.len() as nat),
{
    proof {
        lemma_models(vs@);
    }
    let ghost ns = names(models(vs@));
    let mut r = String::new();
    let mut k: usize = 0;
    while k < vs.len()
        invariant
            k <= vs.len(),
            ns == names(models(vs@)),
            models(vs@).len() == vs.len(),
            forall|j: int| 0 <= j < vs.len() ==> #[trigger] models(vs@)[j] == model(vs@[j]),
            r@ == captures_text(ns, k as nat),
        decreases vs.len() - k,
    {
        let name = name_text(&vs[k]);
        assert(name@ == ns[k as int]);
        r.append("let ");
        r.append(name.as_str());
        r.append(" = ");
        r.append(name.as_str());
        r.append("; ");
        assert(r@ =~= captures_text(ns, (k + 1) as nat));
        k = k + 1;
    }
    r
}

/// The text of the forms that bind names: `let`, `defn`, `with-vars` and
/// `dotimes`.
fn assemble_binding(op: Op, xs: &Vec<LispExpr>, cs: &Vec<String>) -> (r: String)
    requires
        op == Op::Let || op == Op::Defn || op == Op::WithVars || op == Op::Dotimes,
        xs.len() >= 1,
        shape_error(op, models(xs@).subrange(1, xs.len() as int)) is None,
        children(op, models(xs@)) == Ok::<Seq<Seq<char>>, Failure>(views(cs@)),
    ensures
        forall|callee: Seq<char>|
            r@ == #[trigger] assemble(op, callee, models(xs@).subrange(1, xs.len() as int), views(cs@)),
{
    proof {
        lemma_models(xs@);
        lemma_children_len(op, models(xs@));
    }
    let ghost args = models(xs@).subrange(1, xs.len() as int);
    let ghost v = views(cs@);
    let mut r = String::new();
    match op {
        Op::Let => {
            assert(args[0] == model(xs@[1]));
            match &xs[1] {
                LispExpr::Vector(bs) => {
                    let ghost bm = models(bs@);
                    proof {
                        lemma_models(bs@);
                        assert(models(xs@)[1] == model(xs@[1]));
                    }
                    r.append("{ ");
                    let b = bindings_of(bs, cs);
                    r.append(b.as_str());
                    r.append(cs[bs.len() / 2].as_str());
                    r.append(" }");
                    assert(r@ =~= "{ "@ + bindings_text(bm, v, bm.len() / 2) + v[(bm.len() / 2) as int] + " }"@) by {
                        lemma_models(bs@);
                    }
                },
                _ => {},
            }
        },
        Op::Defn => {
            assert(args[0] == model(xs@[1]));
            assert(args[1] == model(xs@[2]));
            match &xs[2] {
                LispExpr::Vector(ps) => {
                    let name = name_text(&xs[1]);
                    r.append("let ");
                    r.append(name.as_str());
                    r.append(" = |");
                    let p = params_of(ps);
                    r.append(p.as_str());
                    r.append("| -> i32 { ");
                    r.append(cs[0].as_str());
                    r.append(" }; ");
                    r.append(name.as_str());
                    assert(r@ =~= "let "@ + name@ + " = |"@ + params_text(names(models(ps@)), ps.len() as nat)
                        + "| -> i32 { "@ + v[0] + " }; "@ + name@);
                    proof { lemma_models(ps@); }
                },
                _ => {},
            }
        },
        Op::WithVars => {
            assert(args[0] == model(xs@[1]));
            match &xs[1] {
                LispExpr::Vector(vs) => {
                    r.append("{ ");
                    let c = captures_of(vs);
                    r.append(c.as_str());
                    r.append(cs[0].as_str());
                    r.append(" }");
                    assert(r@ =~= "{ "@ + captures_text(names(models(vs@)), vs.len() as nat) + v[0] + " }"@);
                    proof { lemma_models(vs@); }
                },
                _ => {},
            }
        },
        _ => {
            assert(args[0] == model(xs@[1]));
            let name = name_text(&xs[1]);
            r.append("{ for ");
            r.append(name.as_str());
            r.append(" in 0..");
            let c = paren_text(cs[0].as_str());
            r.append(c.as_str());
            r.append(" { let _ = ");
            r.append(cs[1].as_str());
            r.append("; } () }");
            assert(r@ =~= "{ for "@ + symbol_name(args[0]) + " in 0.."@ + paren(v[0]) + " { let _ = "@
                + v[1] + "; } () }"@);
        },
    }
    r
}

/// The text of a special form from the codes of the arguments it expands.
pub(crate) fn assemble_text(op: Op, callee: &str, xs: &Vec<LispExpr>, cs: &Vec<String>) -> (r: String)
    requires
        xs.len() >= 1,
        shape_error(op, models(xs@).subrange(1, xs.len() as int)) is None,
        children(op, models(xs@)) == Ok::<Seq<Seq<char>>, Failure>(views(cs@)),
    ensures
        r@ == assemble(op, callee@, models(xs@).subrange(1, xs.len() as int), views(cs@)),
{
    proof {
        lemma_models(xs@);
        lemma_children_len(op, models(xs@));
    }
    let ghost args = models(xs@).subrange(1, xs.len() as int);
    let n = xs.len() - 1;
    assert(args.len() == n);
    match op {
        Op::Add | Op::Sub | Op::Mul | Op::Div | Op::And | Op::Or | Op::Min | Op::Max => {
            assemble_fold(op, n, cs)
        },
        Op::Eq | Op::Lt | Op::Gt | Op::Ge | Op::Le | Op::Ne | Op::Rem => assemble_binary(op, cs),
        Op::Not | Op::First | Op::Rest | Op::Count | Op::Abs | Op::Inc | Op::Dec | Op::Zero
        | Op::Pos | Op::Neg | Op::Even | Op::Odd => assemble_unary(op, cs),
        Op::Let | Op::Defn | Op::WithVars | Op::Dotimes => assemble_binding(op, xs, cs),
        _ => assemble_control(op, callee, n, cs),
    }
}

} // verus!
