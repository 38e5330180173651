//! The demonstration shell's canned answers: a fixed table of example
//! expressions and the results they stand for.
use vstd::prelude::*;
use vstd::string::*;

use crate::text::text_is;

verus! {

/// A fresh string holding the text of `s`.
pub fn text(s: &str) -> (r: String)
    ensures
        r@ == s@,
{
    let mut r = String::new();
    r.append(s);
    assert(r@ =~= s@);
    r
}

/// What `demo_arithmetic` answers: the table's result for a listed expression, else a
/// generic placeholder.
pub open spec fn arithmetic_demo(op: Seq<char>, expr: Seq<char>) -> Seq<char> {
    if expr == "(+ 1 2)"@ {
        "3"@
    } else if expr == "(+ 1 2 3)"@ {
        "6"@
    } else if expr == "(+ 1 2 3 4)"@ {
        "10"@
    } else if expr == "(- 10 3)"@ {
        "7"@
    } else if expr == "(- 10 3 2)"@ {
        "5"@
    } else if expr == "(* 2 3)"@ {
        "6"@
    } else if expr == "(* 2 3 4)"@ {
        "24"@
    } else if expr == "(/ 12 3)"@ {
        "4"@
    } else if expr == "(/ 12 3 2)"@ {
        "2"@
    } else {
        "Demo result for "@ + op + " operation"@
    }
}

/// The demo answer to an arithmetic expression; `op` names the operation in the fallback text.
pub fn demo_arithmetic(op: &str, expr: &str) -> (r: String)
    ensures
        r@ == arithmetic_demo(op@, expr@),
{
    if text_is(expr, "(+ 1 2)") {
        text("3")
    } else if text_is(expr, "(+ 1 2 3)") {
        text("6")
    } else if text_is(expr, "(+ 1 2 3 4)") {
        text("10")
    } else if text_is(expr, "(- 10 3)") {
        text("7")
    } else if text_is(expr, "(- 10 3 2)") {
        text("5")
    } else if text_is(expr, "(* 2 3)") {
        text("6")
    } else if text_is(expr, "(* 2 3 4)") {
        text("24")
    } else if text_is(expr, "(/ 12 3)") {
        text("4")
    } else if text_is(expr, "(/ 12 3 2)") {
        text("2")
    } else {
        let mut r = String::new();
        r.append("Demo result for ");
        r.append(op);
        r.append(" operation");
        r
    }
}

/// What `demo_comparison` answers: the table's result for a listed expression, else a
/// generic placeholder.
pub open spec fn comparison_demo(expr: Seq<char>) -> Seq<char> {
    if expr == "(= 5 5)"@ {
        "true"@
    } else if expr == "(= 3 7)"@ {
        "false"@
    } else if expr == "(< 3 7)"@ {
        "true"@
    } else if expr == "(< 7 3)"@ {
        "false"@
    } else if expr == "(> 7 3)"@ {
        "true"@
    } else if expr == "(> 3 7)"@ {
        "false"@
    } else if expr == "(gte 5 5)"@ {
        "true"@
    } else if expr == "(gte 7 3)"@ {
        "true"@
    } else if expr == "(gte 3 7)"@ {
        "false"@
    } else if expr == "(lte 3 7)"@ {
        "true"@
    } else if expr == "(lte 5 5)"@ {
        "true"@
    } else if expr == "(lte 7 3)"@ {
        "false"@
    } else if expr == "(ne 3 7)"@ {
        "true"@
    } else if expr == "(ne 5 5)"@ {
        "false"@
    } else {
        "true/false"@
    }
}

/// The demo answer to a comparison.
pub fn demo_comparison(expr: &str) -> (r: String)
    ensures
        r@ == comparison_demo(expr@),
{
    if text_is(expr, "(= 5 5)") {
        text("true")
    } else if text_is(expr, "(= 3 7)") {
        text("false")
    } else if text_is(expr, "(< 3 7)") {
        text("true")
    } else if text_is(expr, "(< 7 3)") {
        text("false")
    } else if text_is(expr, "(> 7 3)") {
        text("true")
    } else if text_is(expr, "(> 3 7)") {
        text("false")
    } else if text_is(expr, "(gte 5 5)") {
        text("true")
    } else if text_is(expr, "(gte 7 3)") {
        text("true")
    } else if text_is(expr, "(gte 3 7)") {
        text("false")
    } else if text_is(expr, "(lte 3 7)") {
        text("true")
    } else if text_is(expr, "(lte 5 5)") {
        text("true")
    } else if text_is(expr, "(lte 7 3)") {
        text("false")
    } else if text_is(expr, "(ne 3 7)") {
        text("true")
    } else if text_is(expr, "(ne 5 5)") {
        text("false")
    } else {
        text("true/false")
    }
}

/// What `demo_math_utility` answers: the table's result for a listed expression, else a
/// generic placeholder.
pub open spec fn math_utility_demo(expr: Seq<char>) -> Seq<char> {
    if expr == "(min 5 3)"@ {
        "3"@
    } else if expr == "(min 1 2 3)"@ {
        "1"@
    } else if expr == "(max 5 3)"@ {
        "5"@
    } else if expr == "(max 1 2 3)"@ {
        "3"@
    } else if expr == "(abs 5)"@ {
        "5"@
    } else if expr == "(abs -7)"@ {
        "7"@
    } else if expr == "(modulo 10 3)"@ {
        "1"@
    } else if expr == "(inc 5)"@ {
        "6"@
    } else if expr == "(dec 10)"@ {
        "9"@
    } else {
        "math result"@
    }
}

/// The demo answer to a math utility call.
pub fn demo_math_utility(expr: &str) -> (r: String)
    ensures
        r@ == math_utility_demo(expr@),
{
    if text_is(expr, "(min 5 3)") {
        text("3")
    } else if text_is(expr, "(min 1 2 3)") {
        text("1")
    } else if text_is(expr, "(max 5 3)") {
        text("5")
    } else if text_is(expr, "(max 1 2 3)") {
        text("3")
    } else if text_is(expr, "(abs 5)") {
        text("5")
    } else if text_is(expr, "(abs -7)") {
        text("7")
    } else if text_is(expr, "(modulo 10 3)") {
        text("1")
    } else if text_is(expr, "(inc 5)") {
        text("6")
    } else if text_is(expr, "(dec 10)") {
        text("9")
    } else {
        text("math result")
    }
}

/// What `demo_predicate` answers: the table's result for a listed expression, else a
/// generic placeholder.
pub open spec fn predicate_demo(expr: Seq<char>) -> Seq<char> {
    if expr == "(zero 0)"@ {
        "true"@
    } else if expr == "(zero 5)"@ {
        "false"@
    } else if expr == "(pos 5)"@ {
        "true"@
    } else if expr == "(pos 0)"@ {
        "false"@
    } else if expr == "(neg -5)"@ {
        "true"@
    } else if expr == "(neg 5)"@ {
        "false"@
    } else if expr == "(even 4)"@ {
        "true"@
    } else if expr == "(even 5)"@ {
        "false"@
    } else if expr == "(odd 3)"@ {
        "true"@
    } else if expr == "(odd 4)"@ {
        "false"@
    } else {
        "true/false"@
    }
}

/// The demo answer to a numeric predicate.
pub fn demo_predicate(expr: &str) -> (r: String)
    ensures
        r@ == predicate_demo(expr@),
{
    if text_is(expr, "(zero 0)") {
        text("true")
    } else if text_is(expr, "(zero 5)") {
        text("false")
    } else if text_is(expr, "(pos 5)") {
        text("true")
    } else if text_is(expr, "(pos 0)") {
        text("false")
    } else if text_is(expr, "(neg -5)") {
        text("true")
    } else if text_is(expr, "(neg 5)") {
        text("false")
    } else if text_is(expr, "(even 4)") {
        text("true")
    } else if text_is(expr, "(even 5)") {
        text("false")
    } else if text_is(expr, "(odd 3)") {
        text("true")
    } else if text_is(expr, "(odd 4)") {
        text("false")
    } else {
        text("true/false")
    }
}

/// What `demo_conditional` answers: the table's result for a listed expression, else a
/// generic placeholder.
pub open spec fn conditional_demo(expr: Seq<char>) -> Seq<char> {
    if expr == "(if (> 5 3) \"yes\" \"no\")"@ {
        "\"yes\""@
    } else if expr == "(if (< 5 3) \"yes\" \"no\")"@ {
        "\"no\""@
    } else if expr == "(if (> 5 3) 42 0)"@ {
        "42"@
    } else {
        "conditional result"@
    }
}

/// The demo answer to a conditional.
pub fn demo_conditional(expr: &str) -> (r: String)
    ensures
        r@ == conditional_demo(expr@),
{
    if text_is(expr, "(if (> 5 3) \"yes\" \"no\")") {
        text("\"yes\"")
    } else if text_is(expr, "(if (< 5 3) \"yes\" \"no\")") {
        text("\"no\"")
    } else if text_is(expr, "(if (> 5 3) 42 0)") {
        text("42")
    } else {
        text("conditional result")
    }
}

/// What `demo_string` answers: the table's result for a listed expression, else a
/// generic placeholder.
pub open spec fn string_demo(expr: Seq<char>) -> Seq<char> {
    if expr == "(str \"hello\" \" \" \"world\")"@ {
        "\"hello world\""@
    } else if expr == "(str \"The answer is \" 42)"@ {
        "\"The answer is 42\""@
    } else {
        "\"concatenated string\""@
    }
}

/// The demo answer to a string concatenation.
pub fn demo_string(expr: &str) -> (r: String)
    ensures
        r@ == string_demo(expr@),
{
    if text_is(expr, "(str \"hello\" \" \" \"world\")") {
        text("\"hello world\"")
    } else if text_is(expr, "(str \"The answer is \" 42)") {
        text("\"The answer is 42\"")
    } else {
        text("\"concatenated string\"")
    }
}

/// What `demo_list` answers: the table's result for a listed expression, else a
/// generic placeholder.
pub open spec fn list_demo(expr: Seq<char>) -> Seq<char> {
    if expr == "(first [1 2 3])"@ {
        "1"@
    } else if expr == "(rest [1 2 3])"@ {
        "[2, 3]"@
    } else if expr == "(count [1 2 3 4 5])"@ {
        "5"@
    } else {
        "list operation result"@
    }
}

/// The demo answer to a list operation.
pub fn demo_list(expr: &str) -> (r: String)
    ensures
        r@ == list_demo(expr@),
{
    if text_is(expr, "(first [1 2 3])") {
        text("1")
    } else if text_is(expr, "(rest [1 2 3])") {
        text("[2, 3]")
    } else if text_is(expr, "(count [1 2 3 4 5])") {
        text("5")
    } else {
        text("list operation result")
    }
}

/// What `demo_vector` answers: the table's result for a listed expression, else a
/// generic placeholder.
pub open spec fn vector_demo(expr: Seq<char>) -> Seq<char> {
    if expr == "[1 2 3]"@ {
        "[1, 2, 3]"@
    } else if expr == "[1 2 3 4 5]"@ {
        "[1, 2, 3, 4, 5]"@
    } else {
        "[vector elements]"@
    }
}

/// The demo answer to a vector literal.
pub fn demo_vector(expr: &str) -> (r: String)
    ensures
        r@ == vector_demo(expr@),
{
    if text_is(expr, "[1 2 3]") {
        text("[1, 2, 3]")
    } else if text_is(expr, "[1 2 3 4 5]") {
        text("[1, 2, 3, 4, 5]")
    } else {
        text("[vector elements]")
    }
}

} // verus!
