//! The two entry points that turn a whole token sequence into code: one that
//! also accepts a leading list of captured variables, and one that wraps the
//! code in a block.
use vstd::prelude::*;
use vstd::string::*;

use crate::code::{captures_text, gen, Failure};
use crate::expand::ExpansionError;
use crate::expr::Sexp;
use crate::parse::{host_keyword, is_host_keyword, parse_expr, parse_whole, read_one, read_tree, SyntaxError, SyntaxFailure};
use crate::text::views;
use crate::token::{Delimiter, TokenTree};

verus! {

/// Why a token sequence gave no code.
#[derive(Debug)]
pub enum LispError {
    Syntax(SyntaxError),
    Expansion(ExpansionError),
}

pub enum LispFailure {
    Syntax(SyntaxFailure),
    Expansion(Failure),
}

impl View for LispError {
    type V = LispFailure;

    open spec fn view(&self) -> LispFailure {
        match self {
            LispError::Syntax(e) => LispFailure::Syntax(e@),
            LispError::Expansion(e) => LispFailure::Expansion(e@),
        }
    }
}

pub open spec fn lisp_matches(r: Result<String, LispError>, s: Result<Seq<char>, LispFailure>) -> bool {
    match r {
        Ok(c) => s == Ok::<Seq<char>, LispFailure>(c@),
        Err(e) => s == Err::<Seq<char>, LispFailure>(e@),
    }
}

/// The names of a comma-separated list of identifiers, none of them a word
/// the host reserves; a trailing comma is allowed.
pub open spec fn ident_list(v: Seq<TokenTree>) -> Option<Seq<Seq<char>>>
    decreases v.len(),
{
    if v.len() == 0 {
        Some(seq![])
    } else {
        match v[0] {
            TokenTree::Ident(n) => if host_keyword(n@) {
                None
            } else if v.len() == 1 {
                Some(seq![n@])
            } else {
                match v[1] {
                    TokenTree::Punct(c, _) => if c == ',' {
                        match ident_list(v.subrange(2, v.len() as int)) {
                            Some(rest) => Some(seq![n@] + rest),
                            None => None,
                        }
                    } else {
                        None
                    },
                    _ => None,
                }
            },
            _ => None,
        }
    }
}

/// A bracketed list of variable names followed by one expression: the
/// names and the expression, if the sequence has that form.
pub open spec fn read_captures(s: Seq<TokenTree>) -> Option<(Seq<Seq<char>>, Sexp)> {
    if s.len() != 2 {
        None
    } else {
        match s[0] {
            TokenTree::Group(Delimiter::Bracket, v) => match ident_list(v@) {
                Some(vars) => match read_tree(s[1]) {
                    Ok(e) => Some((vars, e)),
                    Err(_) => None,
                },
                None => None,
            },
            _ => None,
        }
    }
}

/// The code of a whole invocation: with captures, a block that rebinds each
/// captured name to itself before the expression; otherwise the
/// expression's own code.
pub open spec fn lisp_code(s: Seq<TokenTree>) -> Result<Seq<char>, LispFailure> {
    match read_captures(s) {
        Some((vars, e)) => match gen(e) {
            Ok(c) => Ok("{ "@ + captures_text(vars, vars.len()) + c + " }"@),
            Err(f) => Err(LispFailure::Expansion(f)),
        },
        None => match parse_whole(s) {
            Ok(e) => match gen(e) {
                Ok(c) => Ok(c),
                Err(f) => Err(LispFailure::Expansion(f)),
            },
            Err(f) => Err(LispFailure::Syntax(f)),
        },
    }
}

/// The code of a whole invocation, wrapped in a block.
pub open spec fn lisp_fn_code(s: Seq<TokenTree>) -> Result<Seq<char>, LispFailure> {
    match parse_whole(s) {
        Ok(e) => match gen(e) {
            Ok(c) => Ok("{ "@ + c + " }"@),
            Err(f) => Err(LispFailure::Expansion(f)),
        },
        Err(f) => Err(LispFailure::Syntax(f)),
    }
}

pub open spec fn prefixed(o: Seq<Seq<char>>, r: Option<Seq<Seq<char>>>) -> Option<Seq<Seq<char>>> {
    match r {
        Some(x) => Some(o + x),
        None => None,
    }
}

fn identifiers(v: &Vec<TokenTree>) -> (r: Option<Vec<String>>)
    ensures
        match r {
            Some(ns) => ident_list(v@) == Some(views(ns@)),
            None => ident_list(v@) is None,
        },
{
    let mut out: Vec<String> = Vec::new();
    assert(v@.subrange(0, v.len() as int) =~= v@);
    assert(views(out@) =~= seq![]);
    assert forall|x: Seq<Seq<char>>| seq![] + x =~= x by {}
    let mut i: usize = 0;
    while i < v.len()
        invariant
            i <= v.len(),
            ident_list(v@) == prefixed(views(out@), ident_list(v@.subrange(i as int, v.len() as int))),
        decreases v.len() - i,
    {
        let ghost w = v@.subrange(i as int, v.len() as int);
        assert(w[0] == v@[i as int]);
        match &v[i] {
            TokenTree::Ident(n) => {
                if is_host_keyword(n.as_str()) {
                    return None;
                }
                let mut name = String::new();
                name.append(n.as_str());
                assert(name@ =~= n@);
                let ghost before = views(out@);
                out.push(name);
                assert(views(out@) =~= before.push(n@));
                if i + 1 == v.len() {
                    assert(views(out@) =~= before + seq![n@]);
                    return Some(out);
                }
                assert(w[1] == v@[i + 1]);
                match &v[i + 1] {
                    TokenTree::Punct(c, _) => {
                        if *c != ',' {
                            return None;
                        }
                    },
                    _ => {
                        return None;
                    },
                }
                assert(w.subrange(2, w.len() as int) =~= v@.subrange(i + 2, v.len() as int));
                assert forall|x: Seq<Seq<char>>| before + (seq![n@] + x) =~= views(out@) + x by {}
                i = i + 2;
            },
            _ => {
                return None;
            },
        }
    }
    assert(v@.subrange(i as int, v.len() as int) =~= seq![]);
    assert(views(out@) + seq![] =~= views(out@));
    Some(out)
}

/// `{ let v = v; ... code }` for the captured names `vars`.
fn capture_block(vars: &Vec<String>, code: &String) -> (r: String)
    ensures
        r@ == "{ "@ + captures_text(views(vars@), vars.len() as nat) + code@ + " }"@,
{
    let ghost ns = views(vars@);
    let mut lets = String::new();
    let mut k: usize = 0;
    while k < vars.len()
        invariant
            k <= vars.len(),
            ns == views(vars@),
            lets@ == captures_text(ns, k as nat),
        decreases vars.len() - k,
    {
        lets.append("let ");
        lets.append(vars[k].as_str());
        lets.append(" = ");
        lets.append(vars[k].as_str());
        lets.append("; ");
        assert(lets@ =~= captures_text(ns, (k + 1) as nat));
        k = k + 1;
    }
    let mut r = String::new();
    r.append("{ ");
    r.append(lets.as_str());
    r.append(code.as_str());
    r.append(" }");
    r
}

fn expansion(r: Result<String, ExpansionError>) -> (out: Result<String, LispError>)
    ensures
        match r {
            Ok(c) => out matches Ok(d) && d@ == c@,
            Err(e) => out matches Err(LispError::Expansion(f)) && f@ == e@,
        },
{
    match r {
        Ok(c) => Ok(c),
        Err(e) => Err(LispError::Expansion(e)),
    }
}

/// Expands a whole invocation. A bracketed list of comma-separated names
/// followed by one expression captures those names; any other input must be
/// one expression.
pub fn lisp(input: &Vec<TokenTree>) -> (r: Result<String, LispError>)
    ensures
        lisp_matches(r, lisp_code(input@)),
{
    if input.len() == 2 {
        match &input[0] {
            TokenTree::Group(Delimiter::Bracket, v) => match identifiers(v) {
                Some(vars) => match read_one(&input[1]) {
                    Ok(e) => {
                        return match e.to_rust() {
                            Ok(c) => Ok(capture_block(&vars, &c)),
                            Err(x) => Err(LispError::Expansion(x)),
                        };
                    },
                    Err(_) => {},
                },
                None => {},
            },
            _ => {},
        }
    }
    match parse_expr(input) {
        Ok(e) => expansion(e.to_rust()),
        Err(x) => Err(LispError::Syntax(x)),
    }
}

/// Expands an input that is exactly one expression, wrapped in a block.
pub fn lisp_fn(input: &Vec<TokenTree>) -> (r: Result<String, LispError>)
    ensures
        lisp_matches(r, lisp_fn_code(input@)),
{
    match parse_expr(input) {
        Ok(e) => match e.to_rust() {
            Ok(c) => {
                let mut r = String::new();
                r.append("{ ");
                r.append(c.as_str());
                r.append(" }");
                Ok(r)
            },
            Err(x) => Err(LispError::Expansion(x)),
        },
        Err(x) => Err(LispError::Syntax(x)),
    }
}

} // verus!
