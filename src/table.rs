//! The operation table: which names are special forms, and the argument
//! shapes they demand.
use vstd::prelude::*;

use crate::expr::Sexp;

verus! {

/// The operations that a list head can name.
#[derive(Debug, Clone, Copy, PartialEq, Eq, Structural)]
pub enum Op {
    Add,
    Sub,
    Mul,
    Div,
    Eq,
    Lt,
    Gt,
    Ge,
    Le,
    Ne,
    Rem,
    And,
    Or,
    Not,
    If,
    Let,
    Defn,
    Call,
    Do,
    While,
    Dotimes,
    WithVars,
    Try,
    First,
    Rest,
    Cons,
    Count,
    Str,
    Min,
    Max,
    Abs,
    Inc,
    Dec,
    Zero,
    Pos,
    Neg,
    Even,
    Odd,
    Println,
    /// Not in the table: the list is a plain call.
    Plain,
}

/// The shape of arguments that an operation demands, as named in an
/// expansion error.
#[derive(Debug, Clone, Copy, PartialEq, Eq, Structural)]
pub enum Shape {
    /// At least this many arguments.
    AtLeast(usize),
    /// Exactly this many arguments.
    Exactly(usize),
    /// Between the two counts, both included.
    Between(usize, usize),
    /// A vector of name / value pairs: an even count, a symbol first in each pair.
    Bindings,
    /// A name, a vector of parameter symbols and a body.
    Signature,
    /// A symbol to count with.
    LoopVariable,
    /// A vector of variable symbols.
    CaptureList,
}

/// The operation that a head's text names.
pub open spec fn op_of(name: Seq<char>) -> Op {
    if name == "+"@ { Op::Add }
    else if name == "-"@ { Op::Sub }
    else if name == "*"@ { Op::Mul }
    else if name == "/"@ { Op::Div }
    else if name == "="@ || name == "eq"@ { Op::Eq }
    else if name == "<"@ { Op::Lt }
    else if name == ">"@ { Op::Gt }
    else if name == "gte"@ { Op::Ge }
    else if name == "lte"@ { Op::Le }
    else if name == "ne"@ { Op::Ne }
    else if name == "%"@ || name == "modulo"@ { Op::Rem }
    else if name == "and"@ { Op::And }
    else if name == "or"@ { Op::Or }
    else if name == "not"@ { Op::Not }
    else if name == "if"@ { Op::If }
    else if name == "let"@ { Op::Let }
    else if name == "defn"@ { Op::Defn }
    else if name == "call"@ { Op::Call }
    else if name == "do"@ { Op::Do }
    else if name == "while"@ { Op::While }
    else if name == "dotimes"@ { Op::Dotimes }
    else if name == "with-vars"@ { Op::WithVars }
    else if name == "try"@ { Op::Try }
    else if name == "first"@ { Op::First }
    else if name == "rest"@ { Op::Rest }
    else if name == "cons"@ { Op::Cons }
    else if name == "count"@ { Op::Count }
    else if name == "str"@ { Op::Str }
    else if name == "min"@ { Op::Min }
    else if name == "max"@ { Op::Max }
    else if name == "abs"@ { Op::Abs }
    else if name == "inc"@ { Op::Inc }
    else if name == "dec"@ { Op::Dec }
    else if name == "zero"@ { Op::Zero }
    else if name == "pos"@ { Op::Pos }
    else if name == "neg"@ { Op::Neg }
    else if name == "even"@ { Op::Even }
    else if name == "odd"@ { Op::Odd }
    else if name == "println"@ { Op::Println }
    else { Op::Plain }
}

/// The number of arguments an operation takes, where that number is fixed.
pub open spec fn fixed_arity(op: Op) -> Option<nat> {
    match op {
        Op::Eq | Op::Lt | Op::Gt | Op::Ge | Op::Le | Op::Ne | Op::Rem | Op::Cons | Op::While => Some(2),
        Op::Not | Op::First | Op::Rest | Op::Count | Op::Abs | Op::Inc | Op::Dec | Op::Zero
        | Op::Pos | Op::Neg | Op::Even | Op::Odd => Some(1),
        Op::Dotimes => Some(3),
        _ => None,
    }
}

pub open spec fn all_symbols(s: Seq<Sexp>) -> bool {
    forall|i: int| 0 <= i < s.len() ==> (#[trigger] s[i]) is Symbol
}

/// An even number of items, each pair led by a symbol.
pub open spec fn binding_pairs(s: Seq<Sexp>) -> bool {
    &&& s.len() % 2 == 0
    &&& forall|k: int| 0 <= k < s.len() / 2 ==> (#[trigger] s[2 * k]) is Symbol
}

/// The shape that the arguments fail to have, if any.
pub open spec fn shape_error(op: Op, args: Seq<Sexp>) -> Option<Shape> {
    let n = args.len();
    match op {
        Op::Sub | Op::Call | Op::Println => if n < 1 { Some(Shape::AtLeast(1)) } else { None },
        Op::Div | Op::And | Op::Or | Op::Min | Op::Max => if n < 2 { Some(Shape::AtLeast(2)) } else { None },
        Op::If => if n < 2 || n > 3 { Some(Shape::Between(2, 3)) } else { None },
        Op::Try => if n < 1 || n > 2 { Some(Shape::Between(1, 2)) } else { None },
        Op::Let => if n < 2 {
            Some(Shape::AtLeast(2))
        } else {
            match args[0] {
                Sexp::Vector(bs) => if binding_pairs(bs) { None } else { Some(Shape::Bindings) },
                _ => Some(Shape::Bindings),
            }
        },
        Op::Defn => if n < 3 {
            Some(Shape::AtLeast(3))
        } else {
            match (args[0], args[1]) {
                (Sexp::Symbol(_), Sexp::Vector(ps)) => if all_symbols(ps) { None } else { Some(Shape::Signature) },
                _ => Some(Shape::Signature),
            }
        },
        Op::WithVars => if n < 2 {
            Some(Shape::AtLeast(2))
        } else {
            match args[0] {
                Sexp::Vector(vs) => if all_symbols(vs) { None } else { Some(Shape::CaptureList) },
                _ => Some(Shape::CaptureList),
            }
        },
        Op::Dotimes => if n != 3 {
            Some(Shape::Exactly(3))
        } else if args[0] is Symbol {
            None
        } else {
            Some(Shape::LoopVariable)
        },
        _ => match fixed_arity(op) {
            Some(k) => if n != k { Some(Shape::Exactly(k as usize)) } else { None },
            None => None,
        },
    }
}

} // verus!
