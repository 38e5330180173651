//! The expression tree and its mathematical model.
use vstd::prelude::*;

verus! {

/// A parsed Lisp expression.
#[derive(Debug)]
pub enum LispExpr {
    /// An identifier, reserved words such as `if` and `let` included.
    Symbol(String),
    /// A literal constant, kept as its source text.
    Literal(String),
    /// A list in parentheses: a special form or a plain call.
    List(Vec<LispExpr>),
    /// A vector in brackets.
    Vector(Vec<LispExpr>),
    /// One of the punctuation operators.
    Operator(String),
}

/// What a `LispExpr` stands for: the same tree over sequences of characters.
pub enum Sexp {
    Symbol(Seq<char>),
    Literal(Seq<char>),
    List(Seq<Sexp>),
    Vector(Seq<Sexp>),
    Operator(Seq<char>),
}

pub open spec fn model(e: LispExpr) -> Sexp
    decreases e,
{
    match e {
        LispExpr::Symbol(s) => Sexp::Symbol(s@),
        LispExpr::Literal(s) => Sexp::Literal(s@),
        LispExpr::Operator(s) => Sexp::Operator(s@),
        LispExpr::List(v) => Sexp::List(models(v@)),
        LispExpr::Vector(v) => Sexp::Vector(models(v@)),
    }
}

pub open spec fn models(s: Seq<LispExpr>) -> Seq<Sexp>
    decreases s,
{
    if s.len() == 0 {
        seq![]
    } else {
        models(s.subrange(0, s.len() - 1)).push(model(s[s.len() - 1]))
    }
}

impl View for LispExpr {
    type V = Sexp;

    open spec fn view(&self) -> Sexp {
        model(*self)
    }
}

} // verus!
