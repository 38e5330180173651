//! The Rust source text that each expression expands to.
use vstd::prelude::*;

use crate::expr::Sexp;
use crate::table::{op_of, shape_error, Op, Shape};

verus! {

/// An expansion failure: the operation's name as written, and the shape
/// its arguments lacked.
pub type Failure = (Seq<char>, Shape);

/// The textual tag that names the function slot of an operator.
pub open spec fn op_tag(o: Seq<char>) -> Seq<char> {
    if o == "+"@ { "plus"@ }
    else if o == "-"@ { "minus"@ }
    else if o == "*"@ { "mul"@ }
    else if o == "/"@ { "div"@ }
    else if o == "="@ { "eq"@ }
    else if o == "<"@ { "lt"@ }
    else if o == ">"@ { "gt"@ }
    else if o == ">="@ { "gte"@ }
    else if o == "<="@ { "lte"@ }
    else if o == "!="@ { "ne"@ }
    else if o == "%"@ { "mod"@ }
    else { o }
}

/// What a symbol or an operator refers to when it is used as a value.
pub open spec fn reference(e: Sexp) -> Seq<char> {
    match e {
        Sexp::Symbol(n) => n,
        Sexp::Operator(o) => "op_"@ + op_tag(o),
        _ => Seq::empty(),
    }
}

pub open spec fn symbol_name(e: Sexp) -> Seq<char> {
    match e {
        Sexp::Symbol(n) => n,
        _ => Seq::empty(),
    }
}

pub open spec fn paren(c: Seq<char>) -> Seq<char> {
    "("@ + c + ")"@
}

/// The ways a left fold combines what it has with the next operand.
#[derive(Debug, Clone, Copy, PartialEq, Eq, Structural)]
pub enum Fold {
    Sum,
    Difference,
    Product,
    Quotient,
    Conjunction,
    Disjunction,
    Minimum,
    Maximum,
}

pub open spec fn fold_step(f: Fold, acc: Seq<char>, c: Seq<char>) -> Seq<char> {
    match f {
        Fold::Sum => acc + " + ("@ + c + ")"@,
        Fold::Difference => acc + " - ("@ + c + ")"@,
        Fold::Product => acc + " * ("@ + c + ")"@,
        Fold::Quotient => acc + " / ("@ + c + ")"@,
        Fold::Conjunction => "("@ + acc + ") && ("@ + c + ")"@,
        Fold::Disjunction => "("@ + acc + ") || ("@ + c + ")"@,
        Fold::Minimum => "std::cmp::min("@ + acc + ", "@ + c + ")"@,
        Fold::Maximum => "std::cmp::max("@ + acc + ", "@ + c + ")"@,
    }
}

/// `init` combined, left to right, with each of `cs`.
pub open spec fn fold(f: Fold, init: Seq<char>, cs: Seq<Seq<char>>) -> Seq<char>
    decreases cs.len(),
{
    if cs.len() == 0 {
        init
    } else {
        fold_step(f, fold(f, init, cs.drop_last()), cs.last())
    }
}

/// The items of `cs` with `sep` between each two.
pub open spec fn join(cs: Seq<Seq<char>>, sep: Seq<char>) -> Seq<char>
    decreases cs.len(),
{
    if cs.len() == 0 {
        Seq::empty()
    } else if cs.len() == 1 {
        cs[0]
    } else {
        join(cs.drop_last(), sep) + sep + cs.last()
    }
}

/// `let name = value; ` for the first `k` pairs of a binding vector, the
/// values taken from `vs`.
pub open spec fn bindings_text(bs: Seq<Sexp>, vs: Seq<Seq<char>>, k: nat) -> Seq<char>
    decreases k,
{
    if k == 0 {
        Seq::empty()
    } else {
        bindings_text(bs, vs, (k - 1) as nat) + "let "@ + symbol_name(bs[2 * (k - 1)]) + " = "@
            + vs[k - 1] + "; "@
    }
}

/// `let v = v; ` for each of the first `k` variables.
pub open spec fn captures_text(vars: Seq<Seq<char>>, k: nat) -> Seq<char>
    decreases k,
{
    if k == 0 {
        Seq::empty()
    } else {
        captures_text(vars, (k - 1) as nat) + "let "@ + vars[k - 1] + " = "@ + vars[k - 1] + "; "@
    }
}

/// `p: i32` for each of the first `k` parameters, comma separated.
pub open spec fn params_text(ps: Seq<Seq<char>>, k: nat) -> Seq<char>
    decreases k,
{
    if k == 0 {
        Seq::empty()
    } else if k == 1 {
        ps[0] + ": i32"@
    } else {
        params_text(ps, (k - 1) as nat) + ", "@ + ps[k - 1] + ": i32"@
    }
}

pub open spec fn names(s: Seq<Sexp>) -> Seq<Seq<char>> {
    s.map_values(|e: Sexp| symbol_name(e))
}

pub open spec fn binary(c: Seq<Seq<char>>, op: Seq<char>) -> Seq<char> {
    paren(c[0]) + op + paren(c[1])
}

pub open spec fn to_strings(cs: Seq<Seq<char>>) -> Seq<Seq<char>> {
    cs.map_values(|c: Seq<char>| paren(c) + ".to_string()"@)
}

/// The text of a special form, from the codes of the arguments it expands.
///
/// A `defn` is the one form whose text is not a single expression: a `let`
/// statement that binds the function's name where the code is spliced in,
/// followed by that name, the form's value.
pub open spec fn assemble(op: Op, callee: Seq<char>, args: Seq<Sexp>, cs: Seq<Seq<char>>) -> Seq<char> {
    let n = args.len();
    match op {
        Op::Add => if n == 0 { "0"@ } else if n == 1 { cs[0] } else { fold(Fold::Sum, "0"@, cs) },
        Op::Sub => if n == 1 {
            "-"@ + paren(cs[0])
        } else {
            fold(Fold::Difference, paren(cs[0]), cs.drop_first())
        },
        Op::Mul => if n == 0 { "1"@ } else if n == 1 { cs[0] } else { fold(Fold::Product, "1"@, cs) },
        Op::Div => fold(Fold::Quotient, paren(cs[0]), cs.drop_first()),
        Op::Eq => binary(cs, " == "@),
        Op::Lt => binary(cs, " < "@),
        Op::Gt => binary(cs, " > "@),
        Op::Ge => binary(cs, " >= "@),
        Op::Le => binary(cs, " <= "@),
        Op::Ne => binary(cs, " != "@),
        Op::Rem => binary(cs, " % "@),
        Op::And => fold(Fold::Conjunction, "true"@, cs),
        Op::Or => fold(Fold::Disjunction, "false"@, cs),
        Op::Not => "!"@ + paren(cs[0]),
        Op::If => if n == 2 {
            "if "@ + paren(cs[0]) + " { "@ + cs[1] + " }"@
        } else {
            "if "@ + paren(cs[0]) + " { "@ + cs[1] + " } else { "@ + cs[2] + " }"@
        },
        Op::Let => match args[0] {
            Sexp::Vector(bs) => "{ "@ + bindings_text(bs, cs, bs.len() / 2) + cs[(bs.len() / 2) as int] + " }"@,
            _ => Seq::empty(),
        },
        Op::Defn => match args[1] {
            Sexp::Vector(ps) => {
                let name = symbol_name(args[0]);
                "let "@ + name + " = |"@ + params_text(names(ps), ps.len()) + "| -> i32 { "@ + cs[0]
                    + " }; "@ + name
            },
            _ => Seq::empty(),
        },
        Op::Call => paren(cs[0]) + "("@ + join(cs.drop_first(), ", "@) + ")"@,
        Op::Do => if n == 0 { "{ }"@ } else { "{ "@ + join(cs, "; "@) + " }"@ },
        Op::While => "{ let mut result = (); while "@ + paren(cs[0]) + " { result = "@ + cs[1]
            + "; } result }"@,
        Op::Dotimes => "{ for "@ + symbol_name(args[0]) + " in 0.."@ + paren(cs[0]) + " { let _ = "@
            + cs[1] + "; } () }"@,
        Op::WithVars => match args[0] {
            Sexp::Vector(vs) => "{ "@ + captures_text(names(vs), vs.len()) + cs[0] + " }"@,
            _ => Seq::empty(),
        },
        Op::Try => "{ let result = std::panic::catch_unwind(|| { "@ + cs[0]
            + " }); match result { Ok(val) => val, Err(_) => "@ + (if n == 2 {
            cs[1]
        } else {
            "panic!(\"Unhandled error in try block\")"@
        }) + ", } }"@,
        Op::First => paren(cs[0]) + ".first().copied().unwrap_or_default()"@,
        Op::Rest => "{ let v = "@ + cs[0] + "; if v.len() > 1 { v[1..].to_vec() } else { vec![] } }"@,
        Op::Cons => "{ let mut result = vec!["@ + paren(cs[0]) + "]; result.extend("@ + cs[1]
            + "); result }"@,
        Op::Count => paren(cs[0]) + ".len()"@,
        Op::Str => if n == 0 {
            "String::new()"@
        } else {
            "["@ + join(to_strings(cs), ", "@) + "].join(\"\")"@
        },
        Op::Min => fold(Fold::Minimum, paren(cs[0]), cs.drop_first()),
        Op::Max => fold(Fold::Maximum, paren(cs[0]), cs.drop_first()),
        Op::Abs => "("@ + paren(cs[0]) + " as i32).abs()"@,
        Op::Inc => paren(cs[0]) + " + 1"@,
        Op::Dec => paren(cs[0]) + " - 1"@,
        Op::Zero => paren(cs[0]) + " == 0"@,
        Op::Pos => paren(cs[0]) + " > 0"@,
        Op::Neg => paren(cs[0]) + " < 0"@,
        Op::Even => paren(cs[0]) + " % 2 == 0"@,
        Op::Odd => paren(cs[0]) + " % 2 != 0"@,
        Op::Println => if n == 1 {
            "println!(\"{:?}\", "@ + cs[0] + ")"@
        } else {
            "println!(\"{:?}\", ("@ + join(cs, ", "@) + "))"@
        },
        Op::Plain => callee + "("@ + join(cs, ", "@) + ")"@,
    }
}

/// The code of an expression, or the first failure met.
pub open spec fn gen(e: Sexp) -> Result<Seq<char>, Failure>
    decreases e, 3nat,
{
    match e {
        Sexp::Symbol(n) => Ok(n),
        Sexp::Literal(t) => Ok(t),
        Sexp::Operator(_) => Ok(reference(e)),
        Sexp::Vector(xs) => match codes(xs) {
            Ok(cs) => Ok("vec!["@ + join(cs, ", "@) + "]"@),
            Err(f) => Err(f),
        },
        Sexp::List(xs) => gen_list(xs),
    }
}

/// The code of a list form.
pub open spec fn gen_list(xs: Seq<Sexp>) -> Result<Seq<char>, Failure>
    decreases xs, 2nat,
{
    if xs.len() == 0 {
        Ok("()"@)
    } else {
        let args = xs.subrange(1, xs.len() as int);
        match xs[0] {
            Sexp::Symbol(name) => gen_form(op_of(name), name, reference(xs[0]), xs),
            Sexp::Operator(name) => gen_form(op_of(name), name, reference(xs[0]), xs),
            _ => match gen(xs[0]) {
                Ok(f) => match codes(args) {
                    Ok(cs) => Ok(paren(f) + "("@ + join(cs, ", "@) + ")"@),
                    Err(e) => Err(e),
                },
                Err(e) => Err(e),
            },
        }
    }
}

/// The code of a form whose head names `op`; `xs` is the whole list.
pub open spec fn gen_form(op: Op, name: Seq<char>, callee: Seq<char>, xs: Seq<Sexp>) -> Result<Seq<char>, Failure>
    decreases xs, 1nat,
{
    if xs.len() == 0 {
        Ok("()"@)
    } else {
        let args = xs.subrange(1, xs.len() as int);
        match shape_error(op, args) {
            Some(s) => Err((name, s)),
            None => match children(op, xs) {
                Ok(cs) => Ok(assemble(op, callee, args, cs)),
                Err(e) => Err(e),
            },
        }
    }
}

/// The codes of the arguments that a form expands, in order. Every argument
/// but the names that `let`, `defn`, `with-vars` and `dotimes` bind is
/// expanded, those after a body too: a malformed form anywhere fails the
/// whole expansion, though the code of an argument after the body is not
/// part of the result.
pub open spec fn children(op: Op, xs: Seq<Sexp>) -> Result<Seq<Seq<char>>, Failure>
    decreases xs, 0nat,
{
    if xs.len() < 2 {
        Ok(seq![])
    } else {
        match op {
            Op::Let => match xs[1] {
                Sexp::Vector(bs) => match value_codes(bs) {
                    Ok(vs) => match codes(xs.subrange(2, xs.len() as int)) {
                        Ok(rest) => Ok(vs + rest),
                        Err(e) => Err(e),
                    },
                    Err(e) => Err(e),
                },
                _ => Ok(seq![]),
            },
            Op::Defn => if xs.len() < 3 {
                Ok(seq![])
            } else {
                codes(xs.subrange(3, xs.len() as int))
            },
            Op::WithVars => codes(xs.subrange(2, xs.len() as int)),
            Op::Dotimes => codes(xs.subrange(2, xs.len() as int)),
            _ => codes(xs.subrange(1, xs.len() as int)),
        }
    }
}

/// The codes of the values of a binding vector, pair by pair.
pub open spec fn value_codes(bs: Seq<Sexp>) -> Result<Seq<Seq<char>>, Failure>
    decreases bs, 0nat,
{
    if bs.len() < 2 {
        Ok(seq![])
    } else {
        match value_codes(bs.subrange(0, bs.len() - 2)) {
            Ok(vs) => match gen(bs[bs.len() - 1]) {
                Ok(c) => Ok(vs.push(c)),
                Err(e) => Err(e),
            },
            Err(e) => Err(e),
        }
    }
}

/// The codes of each expression, or the first failure from the left.
pub open spec fn codes(s: Seq<Sexp>) -> Result<Seq<Seq<char>>, Failure>
    decreases s, 0nat,
{
    if s.len() == 0 {
        Ok(seq![])
    } else {
        match codes(s.subrange(0, s.len() - 1)) {
            Ok(cs) => match gen(s[s.len() - 1]) {
                Ok(c) => Ok(cs.push(c)),
                Err(e) => Err(e),
            },
            Err(e) => Err(e),
        }
    }
}

} // verus!
